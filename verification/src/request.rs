//! The inbound request schema: the event payloads the platform delivers
//! to a webhook endpoint.
//!
//! Unlike the user-management union, this family is tagged: the `event`
//! member names the variant, and a body whose shape does not match the
//! named variant's required fields is a decode error, never a silent
//! default.

use vstd::prelude::*;

use crate::json::{
    bool_of, get_bool, get_i64, get_opt_i64, get_opt_str, get_str, get_u32, has_key, int_of,
    lookup, opt_int_of, opt_str_of, opt_str_ok, seq_view, str_eq, str_of, view_opt_i64,
    view_opt_str, DecodeError, Json, JsonV,
};
use crate::parse::{parse_json, spec_parse_text};

verus! {

/// The links block of a sender: the sender's own URL.
#[derive(Debug)]
pub struct SenderLinks {
    pub link_self: String,
}

/// Whether a wire value has the shape of a sender's links block.
pub open spec fn sender_links_shape(v: JsonV) -> bool {
    str_of(v, "self"@) is Some
}

/// Whether `l` is exactly what the wire value `v` stands for.
pub open spec fn sender_links_matches(l: SenderLinks, v: JsonV) -> bool {
    str_of(v, "self"@) == Some(l.link_self@)
}

impl SenderLinks {
    /// Decodes a sender's links block from a wire value.
    pub fn from_wire(j: &Json) -> (r: Result<SenderLinks, DecodeError>)
        ensures
            r matches Ok(l) ==> sender_links_matches(l, j@),
            r is Ok <==> sender_links_shape(j@),
            r matches Err(e) ==> e is Shape,
    {
        let link_self = match get_str(j, "self") {
            Ok(s) => s,
            Err(e) => {
                return Err(e);
            },
        };
        Ok(SenderLinks { link_self })
    }
}

/// The user a message or room event came from.
#[derive(Debug)]
pub struct Sender {
    pub id: i64,
    pub links: SenderLinks,
    pub mention_name: String,
    pub name: String,
    pub version: String,
}

/// Whether a wire value has the shape of a sender record.
pub open spec fn sender_shape(v: JsonV) -> bool {
    &&& int_of(v, "id"@) is Some
    &&& lookup(v, "links"@) matches Some(l) && sender_links_shape(l)
    &&& str_of(v, "mention_name"@) is Some
    &&& str_of(v, "name"@) is Some
    &&& str_of(v, "version"@) is Some
}

/// Whether `t` is exactly what the wire value `v` stands for.
pub open spec fn sender_matches(t: Sender, v: JsonV) -> bool {
    &&& int_of(v, "id"@) == Some(t.id as int)
    &&& lookup(v, "links"@) matches Some(l) && sender_links_matches(t.links, l)
    &&& str_of(v, "mention_name"@) == Some(t.mention_name@)
    &&& str_of(v, "name"@) == Some(t.name@)
    &&& str_of(v, "version"@) == Some(t.version@)
}

impl Sender {
    /// Decodes a sender record from a wire value.
    pub fn from_wire(j: &Json) -> (r: Result<Sender, DecodeError>)
        ensures
            r matches Ok(t) ==> sender_matches(t, j@),
            r is Ok <==> sender_shape(j@),
            r matches Err(e) ==> e is Shape,
    {
        let id = match get_i64(j, "id") {
            Ok(x) => x,
            Err(e) => {
                return Err(e);
            },
        };
        let links = match j.get("links") {
            Some(l) => match SenderLinks::from_wire(l) {
                Ok(sl) => sl,
                Err(e) => {
                    return Err(e);
                },
            },
            None => {
                return Err(DecodeError::Shape(String::from_str("links")));
            },
        };
        let mention_name = match get_str(j, "mention_name") {
            Ok(s) => s,
            Err(e) => {
                return Err(e);
            },
        };
        let name = match get_str(j, "name") {
            Ok(s) => s,
            Err(e) => {
                return Err(e);
            },
        };
        let version = match get_str(j, "version") {
            Ok(s) => s,
            Err(e) => {
                return Err(e);
            },
        };
        Ok(Sender { id, links, mention_name, name, version })
    }
}

/// Whether every wire value in a sequence has a sender's shape.
pub open spec fn senders_shape(items: Seq<JsonV>) -> bool {
    forall|i: int| 0 <= i < items.len() ==> sender_shape(#[trigger] items[i])
}

/// Whether a sender list is exactly what a sequence of wire values
/// stands for, element by element.
pub open spec fn senders_match(ts: Seq<Sender>, items: Seq<JsonV>) -> bool {
    &&& ts.len() == items.len()
    &&& forall|i: int| 0 <= i < items.len() ==> sender_matches(ts[i], #[trigger] items[i])
}

/// Decodes a list of sender records from a list of wire values.
fn senders_from_wire(items: &Vec<Json>) -> (r: Result<Vec<Sender>, DecodeError>)
    ensures
        r matches Ok(ts) ==> senders_match(ts@, seq_view(items@)),
        r is Ok <==> senders_shape(seq_view(items@)),
        r matches Err(e) ==> e is Shape,
{
    let ghost iv = seq_view(items@);
    let n = items.len();
    let mut out: Vec<Sender> = Vec::new();
    let mut i: usize = 0;
    while i < n
        invariant
            i <= n,
            n == items@.len(),
            iv == seq_view(items@),
            iv.len() == n,
            forall|k: int| 0 <= k < n ==> #[trigger] iv[k] == items@[k]@,
            out@.len() == i,
            forall|k: int| 0 <= k < i ==> sender_shape(#[trigger] iv[k]),
            forall|k: int| 0 <= k < i ==> sender_matches(#[trigger] out@[k], iv[k]),
        decreases n - i,
    {
        match Sender::from_wire(&items[i]) {
            Ok(t) => {
                out.push(t);
            },
            Err(e) => {
                proof {
                    assert(!sender_shape(iv[i as int]));
                }
                return Err(e);
            },
        }
        i = i + 1;
    }
    Ok(out)
}

/// A file carried by a message.
#[derive(Debug)]
pub struct MessageFile {
    pub name: String,
    pub size: u32,
    pub thumb_url: Option<String>,
    pub url: String,
}

/// Whether a wire value has the shape of a message file block.
pub open spec fn message_file_shape(v: JsonV) -> bool {
    &&& str_of(v, "name"@) is Some
    &&& int_of(v, "size"@) matches Some(x) && 0 <= x <= u32::MAX
    &&& opt_str_ok(v, "thumb_url"@)
    &&& str_of(v, "url"@) is Some
}

/// Whether `f` is exactly what the wire value `v` stands for.
pub open spec fn message_file_matches(f: MessageFile, v: JsonV) -> bool {
    &&& str_of(v, "name"@) == Some(f.name@)
    &&& int_of(v, "size"@) == Some(f.size as int)
    &&& view_opt_str(f.thumb_url) == opt_str_of(v, "thumb_url"@)
    &&& str_of(v, "url"@) == Some(f.url@)
}

impl MessageFile {
    /// Decodes a message file block from a wire value.
    pub fn from_wire(j: &Json) -> (r: Result<MessageFile, DecodeError>)
        ensures
            r matches Ok(f) ==> message_file_matches(f, j@),
            r is Ok <==> message_file_shape(j@),
            r matches Err(e) ==> e is Shape,
    {
        let name = match get_str(j, "name") {
            Ok(s) => s,
            Err(e) => {
                return Err(e);
            },
        };
        let size = match get_u32(j, "size") {
            Ok(x) => x,
            Err(e) => {
                return Err(e);
            },
        };
        let thumb_url = match get_opt_str(j, "thumb_url") {
            Ok(o) => o,
            Err(e) => {
                return Err(e);
            },
        };
        let url = match get_str(j, "url") {
            Ok(s) => s,
            Err(e) => {
                return Err(e);
            },
        };
        Ok(MessageFile { name, size, thumb_url, url })
    }
}

/// What kind of message a room message is.
#[derive(Clone, Copy, Debug, PartialEq, Eq, Structural)]
pub enum MessageType {
    Message,
    GuestAccess,
    Topic,
    Notification,
}

impl MessageType {
    /// The snake_case string tag this kind serializes to.
    pub open spec fn spec_tag(self) -> Seq<char> {
        match self {
            MessageType::Message => "message"@,
            MessageType::GuestAccess => "guest_access"@,
            MessageType::Topic => "topic"@,
            MessageType::Notification => "notification"@,
        }
    }

    /// The kind a wire tag names, or `None` for an unknown tag.
    pub fn from_tag(t: &str) -> (r: Option<MessageType>)
        ensures
            match r {
                Some(k) => k.spec_tag() == t@,
                None => t@ != "message"@ && t@ != "guest_access"@ && t@ != "topic"@ && t@
                    != "notification"@,
            },
    {
        if str_eq(t, "message") {
            Some(MessageType::Message)
        } else if str_eq(t, "guest_access") {
            Some(MessageType::GuestAccess)
        } else if str_eq(t, "topic") {
            Some(MessageType::Topic)
        } else if str_eq(t, "notification") {
            Some(MessageType::Notification)
        } else {
            None
        }
    }
}

/// What kind of link a message link describes.
#[derive(Clone, Copy, Debug, PartialEq, Eq, Structural)]
pub enum MessageLinkType {
    Image,
    Video,
    Link,
    TwitterStatus,
    TwitterUser,
}

impl MessageLinkType {
    /// The snake_case string tag this kind serializes to.
    pub open spec fn spec_tag(self) -> Seq<char> {
        match self {
            MessageLinkType::Image => "image"@,
            MessageLinkType::Video => "video"@,
            MessageLinkType::Link => "link"@,
            MessageLinkType::TwitterStatus => "twitter_status"@,
            MessageLinkType::TwitterUser => "twitter_user"@,
        }
    }

    /// The kind a wire tag names, or `None` for an unknown tag.
    pub fn from_tag(t: &str) -> (r: Option<MessageLinkType>)
        ensures
            match r {
                Some(k) => k.spec_tag() == t@,
                None => t@ != "image"@ && t@ != "video"@ && t@ != "link"@ && t@
                    != "twitter_status"@ && t@ != "twitter_user"@,
            },
    {
        if str_eq(t, "image") {
            Some(MessageLinkType::Image)
        } else if str_eq(t, "video") {
            Some(MessageLinkType::Video)
        } else if str_eq(t, "link") {
            Some(MessageLinkType::Link)
        } else if str_eq(t, "twitter_status") {
            Some(MessageLinkType::TwitterStatus)
        } else if str_eq(t, "twitter_user") {
            Some(MessageLinkType::TwitterUser)
        } else {
            None
        }
    }
}

/// The image block of a message link.
#[derive(Debug)]
pub struct MessageLinkImage {
    pub image: Option<String>,
    pub name: Option<String>,
}

/// Whether a wire value has the shape of a link image block.
pub open spec fn ml_image_shape(v: JsonV) -> bool {
    &&& opt_str_ok(v, "image"@)
    &&& opt_str_ok(v, "name"@)
}

/// Whether `b` is exactly what the wire value `v` stands for.
pub open spec fn ml_image_matches(b: MessageLinkImage, v: JsonV) -> bool {
    &&& view_opt_str(b.image) == opt_str_of(v, "image"@)
    &&& view_opt_str(b.name) == opt_str_of(v, "name"@)
}

impl MessageLinkImage {
    /// Decodes a link image block from a wire value.
    pub fn from_wire(j: &Json) -> (r: Result<MessageLinkImage, DecodeError>)
        ensures
            r matches Ok(b) ==> ml_image_matches(b, j@),
            r is Ok <==> ml_image_shape(j@),
            r matches Err(e) ==> e is Shape,
    {
        let image = match get_opt_str(j, "image") {
            Ok(o) => o,
            Err(e) => {
                return Err(e);
            },
        };
        let name = match get_opt_str(j, "name") {
            Ok(o) => o,
            Err(e) => {
                return Err(e);
            },
        };
        Ok(MessageLinkImage { image, name })
    }
}

/// The page block of a message link; keys are camelCase on the wire.
#[derive(Debug)]
pub struct MessageLinkLink {
    pub description: Option<String>,
    pub favicon_url: Option<String>,
    pub full_url: Option<String>,
    pub header_text: Option<String>,
    pub link_text: Option<String>,
    pub title: Option<String>,
}

/// Whether a wire value has the shape of a link page block.
pub open spec fn ml_link_shape(v: JsonV) -> bool {
    &&& opt_str_ok(v, "description"@)
    &&& opt_str_ok(v, "faviconUrl"@)
    &&& opt_str_ok(v, "fullUrl"@)
    &&& opt_str_ok(v, "headerText"@)
    &&& opt_str_ok(v, "linkText"@)
    &&& opt_str_ok(v, "title"@)
}

/// Whether `b` is exactly what the wire value `v` stands for.
pub open spec fn ml_link_matches(b: MessageLinkLink, v: JsonV) -> bool {
    &&& view_opt_str(b.description) == opt_str_of(v, "description"@)
    &&& view_opt_str(b.favicon_url) == opt_str_of(v, "faviconUrl"@)
    &&& view_opt_str(b.full_url) == opt_str_of(v, "fullUrl"@)
    &&& view_opt_str(b.header_text) == opt_str_of(v, "headerText"@)
    &&& view_opt_str(b.link_text) == opt_str_of(v, "linkText"@)
    &&& view_opt_str(b.title) == opt_str_of(v, "title"@)
}

impl MessageLinkLink {
    /// Decodes a link page block from a wire value.
    pub fn from_wire(j: &Json) -> (r: Result<MessageLinkLink, DecodeError>)
        ensures
            r matches Ok(b) ==> ml_link_matches(b, j@),
            r is Ok <==> ml_link_shape(j@),
            r matches Err(e) ==> e is Shape,
    {
        let description = match get_opt_str(j, "description") {
            Ok(o) => o,
            Err(e) => {
                return Err(e);
            },
        };
        let favicon_url = match get_opt_str(j, "faviconUrl") {
            Ok(o) => o,
            Err(e) => {
                return Err(e);
            },
        };
        let full_url = match get_opt_str(j, "fullUrl") {
            Ok(o) => o,
            Err(e) => {
                return Err(e);
            },
        };
        let header_text = match get_opt_str(j, "headerText") {
            Ok(o) => o,
            Err(e) => {
                return Err(e);
            },
        };
        let link_text = match get_opt_str(j, "linkText") {
            Ok(o) => o,
            Err(e) => {
                return Err(e);
            },
        };
        let title = match get_opt_str(j, "title") {
            Ok(o) => o,
            Err(e) => {
                return Err(e);
            },
        };
        Ok(MessageLinkLink { description, favicon_url, full_url, header_text, link_text, title })
    }
}

/// The twitter status block of a message link.
#[derive(Debug)]
pub struct MessageLinkTwitterStatus {
    pub created: Option<String>,
    pub name: Option<String>,
    pub profile_image_url: Option<String>,
    pub screen_name: Option<String>,
    pub source: Option<String>,
    pub text: String,
}

/// Whether a wire value has the shape of a twitter status block.
pub open spec fn ml_twitter_status_shape(v: JsonV) -> bool {
    &&& opt_str_ok(v, "created"@)
    &&& opt_str_ok(v, "name"@)
    &&& opt_str_ok(v, "profileImageUrl"@)
    &&& opt_str_ok(v, "screenName"@)
    &&& opt_str_ok(v, "source"@)
    &&& str_of(v, "text"@) is Some
}

/// Whether `b` is exactly what the wire value `v` stands for.
pub open spec fn ml_twitter_status_matches(b: MessageLinkTwitterStatus, v: JsonV) -> bool {
    &&& view_opt_str(b.created) == opt_str_of(v, "created"@)
    &&& view_opt_str(b.name) == opt_str_of(v, "name"@)
    &&& view_opt_str(b.profile_image_url) == opt_str_of(v, "profileImageUrl"@)
    &&& view_opt_str(b.screen_name) == opt_str_of(v, "screenName"@)
    &&& view_opt_str(b.source) == opt_str_of(v, "source"@)
    &&& str_of(v, "text"@) == Some(b.text@)
}

impl MessageLinkTwitterStatus {
    /// Decodes a twitter status block from a wire value.
    pub fn from_wire(j: &Json) -> (r: Result<MessageLinkTwitterStatus, DecodeError>)
        ensures
            r matches Ok(b) ==> ml_twitter_status_matches(b, j@),
            r is Ok <==> ml_twitter_status_shape(j@),
            r matches Err(e) ==> e is Shape,
    {
        let created = match get_opt_str(j, "created") {
            Ok(o) => o,
            Err(e) => {
                return Err(e);
            },
        };
        let name = match get_opt_str(j, "name") {
            Ok(o) => o,
            Err(e) => {
                return Err(e);
            },
        };
        let profile_image_url = match get_opt_str(j, "profileImageUrl") {
            Ok(o) => o,
            Err(e) => {
                return Err(e);
            },
        };
        let screen_name = match get_opt_str(j, "screenName") {
            Ok(o) => o,
            Err(e) => {
                return Err(e);
            },
        };
        let source = match get_opt_str(j, "source") {
            Ok(o) => o,
            Err(e) => {
                return Err(e);
            },
        };
        let text = match get_str(j, "text") {
            Ok(s) => s,
            Err(e) => {
                return Err(e);
            },
        };
        Ok(MessageLinkTwitterStatus { created, name, profile_image_url, screen_name, source, text })
    }
}

/// The twitter user block of a message link.
#[derive(Debug)]
pub struct MessageLinkTwitterUser {
    pub followers: u32,
    pub name: String,
    pub profile_image_url: String,
    pub screen_name: String,
}

/// Whether a wire value has the shape of a twitter user block.
pub open spec fn ml_twitter_user_shape(v: JsonV) -> bool {
    &&& int_of(v, "followers"@) matches Some(x) && 0 <= x <= u32::MAX
    &&& str_of(v, "name"@) is Some
    &&& str_of(v, "profileImageUrl"@) is Some
    &&& str_of(v, "screenName"@) is Some
}

/// Whether `b` is exactly what the wire value `v` stands for.
pub open spec fn ml_twitter_user_matches(b: MessageLinkTwitterUser, v: JsonV) -> bool {
    &&& int_of(v, "followers"@) == Some(b.followers as int)
    &&& str_of(v, "name"@) == Some(b.name@)
    &&& str_of(v, "profileImageUrl"@) == Some(b.profile_image_url@)
    &&& str_of(v, "screenName"@) == Some(b.screen_name@)
}

impl MessageLinkTwitterUser {
    /// Decodes a twitter user block from a wire value.
    pub fn from_wire(j: &Json) -> (r: Result<MessageLinkTwitterUser, DecodeError>)
        ensures
            r matches Ok(b) ==> ml_twitter_user_matches(b, j@),
            r is Ok <==> ml_twitter_user_shape(j@),
            r matches Err(e) ==> e is Shape,
    {
        let followers = match get_u32(j, "followers") {
            Ok(x) => x,
            Err(e) => {
                return Err(e);
            },
        };
        let name = match get_str(j, "name") {
            Ok(s) => s,
            Err(e) => {
                return Err(e);
            },
        };
        let profile_image_url = match get_str(j, "profileImageUrl") {
            Ok(s) => s,
            Err(e) => {
                return Err(e);
            },
        };
        let screen_name = match get_str(j, "screenName") {
            Ok(s) => s,
            Err(e) => {
                return Err(e);
            },
        };
        Ok(MessageLinkTwitterUser { followers, name, profile_image_url, screen_name })
    }
}

/// The video block of a message link.
#[derive(Debug)]
pub struct MessageLinkVideo {
    pub author: Option<String>,
    pub thumbnail_url: Option<String>,
    pub title: Option<String>,
    pub views: Option<i64>,
}

/// Whether a wire value has the shape of a video block.
pub open spec fn ml_video_shape(v: JsonV) -> bool {
    &&& opt_str_ok(v, "author"@)
    &&& opt_str_ok(v, "thumbnailUrl"@)
    &&& opt_str_ok(v, "title"@)
    &&& crate::json::opt_int_ok(v, "views"@)
}

/// Whether `b` is exactly what the wire value `v` stands for.
pub open spec fn ml_video_matches(b: MessageLinkVideo, v: JsonV) -> bool {
    &&& view_opt_str(b.author) == opt_str_of(v, "author"@)
    &&& view_opt_str(b.thumbnail_url) == opt_str_of(v, "thumbnailUrl"@)
    &&& view_opt_str(b.title) == opt_str_of(v, "title"@)
    &&& view_opt_i64(b.views) == opt_int_of(v, "views"@)
}

impl MessageLinkVideo {
    /// Decodes a video block from a wire value.
    pub fn from_wire(j: &Json) -> (r: Result<MessageLinkVideo, DecodeError>)
        ensures
            r matches Ok(b) ==> ml_video_matches(b, j@),
            r is Ok <==> ml_video_shape(j@),
            r matches Err(e) ==> e is Shape,
    {
        let author = match get_opt_str(j, "author") {
            Ok(o) => o,
            Err(e) => {
                return Err(e);
            },
        };
        let thumbnail_url = match get_opt_str(j, "thumbnailUrl") {
            Ok(o) => o,
            Err(e) => {
                return Err(e);
            },
        };
        let title = match get_opt_str(j, "title") {
            Ok(o) => o,
            Err(e) => {
                return Err(e);
            },
        };
        let views = match get_opt_i64(j, "views") {
            Ok(o) => o,
            Err(e) => {
                return Err(e);
            },
        };
        Ok(MessageLinkVideo { author, thumbnail_url, title, views })
    }
}

/// One link found in a message, with the sub-block its kind calls for.
/// The tag and the populated sub-block are decoded as delivered; they are
/// kept consistent by the platform, not re-validated against each other.
#[derive(Debug)]
pub struct MessageLink {
    pub image: Option<MessageLinkImage>,
    pub link: Option<MessageLinkLink>,
    pub twitter_status: Option<MessageLinkTwitterStatus>,
    pub twitter_user: Option<MessageLinkTwitterUser>,
    pub message_type: MessageLinkType,
    pub url: String,
    pub video: Option<MessageLinkVideo>,
}

/// Whether a wire value has the shape of a message link.
pub open spec fn message_link_shape(v: JsonV) -> bool {
    &&& match lookup(v, "image"@) {
        None => true,
        Some(JsonV::Null) => true,
        Some(o) => ml_image_shape(o),
    }
    &&& match lookup(v, "link"@) {
        None => true,
        Some(JsonV::Null) => true,
        Some(o) => ml_link_shape(o),
    }
    &&& match lookup(v, "twitter_status"@) {
        None => true,
        Some(JsonV::Null) => true,
        Some(o) => ml_twitter_status_shape(o),
    }
    &&& match lookup(v, "twitter_user"@) {
        None => true,
        Some(JsonV::Null) => true,
        Some(o) => ml_twitter_user_shape(o),
    }
    &&& str_of(v, "type"@) matches Some(t) && (t == "image"@ || t == "video"@ || t == "link"@
        || t == "twitter_status"@ || t == "twitter_user"@)
    &&& str_of(v, "url"@) is Some
    &&& match lookup(v, "video"@) {
        None => true,
        Some(JsonV::Null) => true,
        Some(o) => ml_video_shape(o),
    }
}

/// Whether `b` is exactly what the wire value `v` stands for.
pub open spec fn message_link_matches(b: MessageLink, v: JsonV) -> bool {
    &&& match b.image {
        None => lookup(v, "image"@) is None || lookup(v, "image"@) == Some(JsonV::Null),
        Some(x) => lookup(v, "image"@) matches Some(o) && ml_image_matches(x, o),
    }
    &&& match b.link {
        None => lookup(v, "link"@) is None || lookup(v, "link"@) == Some(JsonV::Null),
        Some(x) => lookup(v, "link"@) matches Some(o) && ml_link_matches(x, o),
    }
    &&& match b.twitter_status {
        None => lookup(v, "twitter_status"@) is None || lookup(v, "twitter_status"@) == Some(
            JsonV::Null,
        ),
        Some(x) => lookup(v, "twitter_status"@) matches Some(o) && ml_twitter_status_matches(x, o),
    }
    &&& match b.twitter_user {
        None => lookup(v, "twitter_user"@) is None || lookup(v, "twitter_user"@) == Some(
            JsonV::Null,
        ),
        Some(x) => lookup(v, "twitter_user"@) matches Some(o) && ml_twitter_user_matches(x, o),
    }
    &&& str_of(v, "type"@) == Some(b.message_type.spec_tag())
    &&& str_of(v, "url"@) == Some(b.url@)
    &&& match b.video {
        None => lookup(v, "video"@) is None || lookup(v, "video"@) == Some(JsonV::Null),
        Some(x) => lookup(v, "video"@) matches Some(o) && ml_video_matches(x, o),
    }
}

impl MessageLink {
    /// Decodes a message link from a wire value.
    pub fn from_wire(j: &Json) -> (r: Result<MessageLink, DecodeError>)
        ensures
            r matches Ok(b) ==> message_link_matches(b, j@),
            r is Ok <==> message_link_shape(j@),
            r matches Err(e) ==> e is Shape,
    {
        let image = match j.get("image") {
            None => None,
            Some(Json::Null) => None,
            Some(o) => match MessageLinkImage::from_wire(o) {
                Ok(x) => Some(x),
                Err(e) => {
                    return Err(e);
                },
            },
        };
        let link = match j.get("link") {
            None => None,
            Some(Json::Null) => None,
            Some(o) => match MessageLinkLink::from_wire(o) {
                Ok(x) => Some(x),
                Err(e) => {
                    return Err(e);
                },
            },
        };
        let twitter_status = match j.get("twitter_status") {
            None => None,
            Some(Json::Null) => None,
            Some(o) => match MessageLinkTwitterStatus::from_wire(o) {
                Ok(x) => Some(x),
                Err(e) => {
                    return Err(e);
                },
            },
        };
        let twitter_user = match j.get("twitter_user") {
            None => None,
            Some(Json::Null) => None,
            Some(o) => match MessageLinkTwitterUser::from_wire(o) {
                Ok(x) => Some(x),
                Err(e) => {
                    return Err(e);
                },
            },
        };
        let message_type = match get_str(j, "type") {
            Ok(t) => match MessageLinkType::from_tag(t.as_str()) {
                Some(k) => k,
                None => {
                    return Err(DecodeError::Shape(String::from_str("type")));
                },
            },
            Err(e) => {
                return Err(e);
            },
        };
        let url = match get_str(j, "url") {
            Ok(s) => s,
            Err(e) => {
                return Err(e);
            },
        };
        let video = match j.get("video") {
            None => None,
            Some(Json::Null) => None,
            Some(o) => match MessageLinkVideo::from_wire(o) {
                Ok(x) => Some(x),
                Err(e) => {
                    return Err(e);
                },
            },
        };
        Ok(MessageLink { image, link, twitter_status, twitter_user, message_type, url, video })
    }
}

/// Whether every wire value in a sequence has a message link's shape.
pub open spec fn message_links_shape(items: Seq<JsonV>) -> bool {
    forall|i: int| 0 <= i < items.len() ==> message_link_shape(#[trigger] items[i])
}

/// Whether a link list is exactly what a sequence of wire values stands
/// for, element by element.
pub open spec fn message_links_match(bs: Seq<MessageLink>, items: Seq<JsonV>) -> bool {
    &&& bs.len() == items.len()
    &&& forall|i: int| 0 <= i < items.len() ==> message_link_matches(bs[i], #[trigger] items[i])
}

/// Decodes a list of message links from a list of wire values.
fn message_links_from_wire(items: &Vec<Json>) -> (r: Result<Vec<MessageLink>, DecodeError>)
    ensures
        r matches Ok(bs) ==> message_links_match(bs@, seq_view(items@)),
        r is Ok <==> message_links_shape(seq_view(items@)),
        r matches Err(e) ==> e is Shape,
{
    let ghost iv = seq_view(items@);
    let n = items.len();
    let mut out: Vec<MessageLink> = Vec::new();
    let mut i: usize = 0;
    while i < n
        invariant
            i <= n,
            n == items@.len(),
            iv == seq_view(items@),
            iv.len() == n,
            forall|k: int| 0 <= k < n ==> #[trigger] iv[k] == items@[k]@,
            out@.len() == i,
            forall|k: int| 0 <= k < i ==> message_link_shape(#[trigger] iv[k]),
            forall|k: int| 0 <= k < i ==> message_link_matches(#[trigger] out@[k], iv[k]),
        decreases n - i,
    {
        match MessageLink::from_wire(&items[i]) {
            Ok(b) => {
                out.push(b);
            },
            Err(e) => {
                proof {
                    assert(!message_link_shape(iv[i as int]));
                }
                return Err(e);
            },
        }
        i = i + 1;
    }
    Ok(out)
}

/// A room message as delivered to a webhook.
#[derive(Debug)]
pub struct Message {
    pub date: String,
    pub file: Option<MessageFile>,
    pub from: Sender,
    pub id: String,
    pub mentions: Option<Vec<Sender>>,
    pub message: String,
    pub message_links: Option<Vec<MessageLink>>,
    pub message_type: MessageType,
}

/// Whether a wire value has the shape of a message record.
pub open spec fn message_shape(v: JsonV) -> bool {
    &&& str_of(v, "date"@) is Some
    &&& match lookup(v, "file"@) {
        None => true,
        Some(JsonV::Null) => true,
        Some(o) => message_file_shape(o),
    }
    &&& lookup(v, "from"@) matches Some(f) && sender_shape(f)
    &&& str_of(v, "id"@) is Some
    &&& match lookup(v, "mentions"@) {
        None => true,
        Some(JsonV::Null) => true,
        Some(JsonV::Arr(items)) => senders_shape(items),
        Some(_) => false,
    }
    &&& str_of(v, "message"@) is Some
    &&& match lookup(v, "message_links"@) {
        None => true,
        Some(JsonV::Null) => true,
        Some(JsonV::Arr(items)) => message_links_shape(items),
        Some(_) => false,
    }
    &&& str_of(v, "type"@) matches Some(t) && (t == "message"@ || t == "guest_access"@ || t
        == "topic"@ || t == "notification"@)
}

/// Whether `m` is exactly what the wire value `v` stands for.
pub open spec fn message_matches(m: Message, v: JsonV) -> bool {
    &&& str_of(v, "date"@) == Some(m.date@)
    &&& match m.file {
        None => lookup(v, "file"@) is None || lookup(v, "file"@) == Some(JsonV::Null),
        Some(f) => lookup(v, "file"@) matches Some(o) && message_file_matches(f, o),
    }
    &&& lookup(v, "from"@) matches Some(f) && sender_matches(m.from, f)
    &&& str_of(v, "id"@) == Some(m.id@)
    &&& match m.mentions {
        None => lookup(v, "mentions"@) is None || lookup(v, "mentions"@) == Some(JsonV::Null),
        Some(ts) => lookup(v, "mentions"@) matches Some(JsonV::Arr(items)) && senders_match(
            ts@,
            items,
        ),
    }
    &&& str_of(v, "message"@) == Some(m.message@)
    &&& match m.message_links {
        None => lookup(v, "message_links"@) is None || lookup(v, "message_links"@) == Some(
            JsonV::Null,
        ),
        Some(bs) => lookup(v, "message_links"@) matches Some(JsonV::Arr(items))
            && message_links_match(bs@, items),
    }
    &&& str_of(v, "type"@) == Some(m.message_type.spec_tag())
}

impl Message {
    /// Decodes a message record from a wire value.
    pub fn from_wire(j: &Json) -> (r: Result<Message, DecodeError>)
        ensures
            r matches Ok(m) ==> message_matches(m, j@),
            r is Ok <==> message_shape(j@),
            r matches Err(e) ==> e is Shape,
    {
        let date = match get_str(j, "date") {
            Ok(s) => s,
            Err(e) => {
                return Err(e);
            },
        };
        let file = match j.get("file") {
            None => None,
            Some(Json::Null) => None,
            Some(o) => match MessageFile::from_wire(o) {
                Ok(f) => Some(f),
                Err(e) => {
                    return Err(e);
                },
            },
        };
        let from = match j.get("from") {
            Some(f) => match Sender::from_wire(f) {
                Ok(t) => t,
                Err(e) => {
                    return Err(e);
                },
            },
            None => {
                return Err(DecodeError::Shape(String::from_str("from")));
            },
        };
        let id = match get_str(j, "id") {
            Ok(s) => s,
            Err(e) => {
                return Err(e);
            },
        };
        let mentions = match j.get("mentions") {
            None => None,
            Some(Json::Null) => None,
            Some(Json::Arr(items)) => match senders_from_wire(items) {
                Ok(ts) => Some(ts),
                Err(e) => {
                    return Err(e);
                },
            },
            Some(o) => {
                proof {
                    assert(!(o@ is Arr) && !(o@ is Null));
                }
                return Err(DecodeError::Shape(String::from_str("mentions")));
            },
        };
        let message = match get_str(j, "message") {
            Ok(s) => s,
            Err(e) => {
                return Err(e);
            },
        };
        let message_links = match j.get("message_links") {
            None => None,
            Some(Json::Null) => None,
            Some(Json::Arr(items)) => match message_links_from_wire(items) {
                Ok(bs) => Some(bs),
                Err(e) => {
                    return Err(e);
                },
            },
            Some(o) => {
                proof {
                    assert(!(o@ is Arr) && !(o@ is Null));
                }
                return Err(DecodeError::Shape(String::from_str("message_links")));
            },
        };
        let message_type = match get_str(j, "type") {
            Ok(t) => match MessageType::from_tag(t.as_str()) {
                Some(k) => k,
                None => {
                    return Err(DecodeError::Shape(String::from_str("type")));
                },
            },
            Err(e) => {
                return Err(e);
            },
        };
        Ok(Message { date, file, from, id, mentions, message, message_links, message_type })
    }
}

/// The links block of a room.
#[derive(Debug)]
pub struct RoomLinks {
    pub members: Option<String>,
    pub participants: String,
    pub link_self: String,
    pub webhooks: String,
}

/// Whether a wire value has the shape of a room's links block.
pub open spec fn room_links_shape(v: JsonV) -> bool {
    &&& opt_str_ok(v, "members"@)
    &&& str_of(v, "participants"@) is Some
    &&& str_of(v, "self"@) is Some
    &&& str_of(v, "webhooks"@) is Some
}

/// Whether `l` is exactly what the wire value `v` stands for.
pub open spec fn room_links_matches(l: RoomLinks, v: JsonV) -> bool {
    &&& view_opt_str(l.members) == opt_str_of(v, "members"@)
    &&& str_of(v, "participants"@) == Some(l.participants@)
    &&& str_of(v, "self"@) == Some(l.link_self@)
    &&& str_of(v, "webhooks"@) == Some(l.webhooks@)
}

impl RoomLinks {
    /// Decodes a room's links block from a wire value.
    pub fn from_wire(j: &Json) -> (r: Result<RoomLinks, DecodeError>)
        ensures
            r matches Ok(l) ==> room_links_matches(l, j@),
            r is Ok <==> room_links_shape(j@),
            r matches Err(e) ==> e is Shape,
    {
        let members = match get_opt_str(j, "members") {
            Ok(o) => o,
            Err(e) => {
                return Err(e);
            },
        };
        let participants = match get_str(j, "participants") {
            Ok(s) => s,
            Err(e) => {
                return Err(e);
            },
        };
        let link_self = match get_str(j, "self") {
            Ok(s) => s,
            Err(e) => {
                return Err(e);
            },
        };
        let webhooks = match get_str(j, "webhooks") {
            Ok(s) => s,
            Err(e) => {
                return Err(e);
            },
        };
        Ok(RoomLinks { members, participants, link_self, webhooks })
    }
}

/// The room an event happened in.
#[derive(Debug)]
pub struct Room {
    pub id: i64,
    pub is_archived: bool,
    pub links: RoomLinks,
    pub name: String,
    pub privacy: String,
    pub version: String,
}

/// Whether a wire value has the shape of a room record.
pub open spec fn room_shape(v: JsonV) -> bool {
    &&& int_of(v, "id"@) is Some
    &&& bool_of(v, "is_archived"@) is Some
    &&& lookup(v, "links"@) matches Some(l) && room_links_shape(l)
    &&& str_of(v, "name"@) is Some
    &&& str_of(v, "privacy"@) is Some
    &&& str_of(v, "version"@) is Some
}

/// Whether `t` is exactly what the wire value `v` stands for.
pub open spec fn room_matches(t: Room, v: JsonV) -> bool {
    &&& int_of(v, "id"@) == Some(t.id as int)
    &&& bool_of(v, "is_archived"@) == Some(t.is_archived)
    &&& lookup(v, "links"@) matches Some(l) && room_links_matches(t.links, l)
    &&& str_of(v, "name"@) == Some(t.name@)
    &&& str_of(v, "privacy"@) == Some(t.privacy@)
    &&& str_of(v, "version"@) == Some(t.version@)
}

impl Room {
    /// Decodes a room record from a wire value.
    pub fn from_wire(j: &Json) -> (r: Result<Room, DecodeError>)
        ensures
            r matches Ok(t) ==> room_matches(t, j@),
            r is Ok <==> room_shape(j@),
            r matches Err(e) ==> e is Shape,
    {
        let id = match get_i64(j, "id") {
            Ok(x) => x,
            Err(e) => {
                return Err(e);
            },
        };
        let is_archived = match get_bool(j, "is_archived") {
            Ok(b) => b,
            Err(e) => {
                return Err(e);
            },
        };
        let links = match j.get("links") {
            Some(l) => match RoomLinks::from_wire(l) {
                Ok(rl) => rl,
                Err(e) => {
                    return Err(e);
                },
            },
            None => {
                return Err(DecodeError::Shape(String::from_str("links")));
            },
        };
        let name = match get_str(j, "name") {
            Ok(s) => s,
            Err(e) => {
                return Err(e);
            },
        };
        let privacy = match get_str(j, "privacy") {
            Ok(s) => s,
            Err(e) => {
                return Err(e);
            },
        };
        let version = match get_str(j, "version") {
            Ok(s) => s,
            Err(e) => {
                return Err(e);
            },
        };
        Ok(Room { id, is_archived, links, name, privacy, version })
    }
}

/// The item of a room-entry event: who entered which room.
#[derive(Debug)]
pub struct RoomEnterItem {
    pub room: Room,
    pub sender: Sender,
}

/// Whether a wire value has the shape of a room-entry item.
pub open spec fn room_enter_item_shape(v: JsonV) -> bool {
    &&& lookup(v, "room"@) matches Some(r) && room_shape(r)
    &&& lookup(v, "sender"@) matches Some(s) && sender_shape(s)
}

/// Whether `t` is exactly what the wire value `v` stands for.
pub open spec fn room_enter_item_matches(t: RoomEnterItem, v: JsonV) -> bool {
    &&& lookup(v, "room"@) matches Some(r) && room_matches(t.room, r)
    &&& lookup(v, "sender"@) matches Some(s) && sender_matches(t.sender, s)
}

impl RoomEnterItem {
    /// Decodes a room-entry item from a wire value.
    pub fn from_wire(j: &Json) -> (r: Result<RoomEnterItem, DecodeError>)
        ensures
            r matches Ok(t) ==> room_enter_item_matches(t, j@),
            r is Ok <==> room_enter_item_shape(j@),
            r matches Err(e) ==> e is Shape,
    {
        let room = match j.get("room") {
            Some(o) => match Room::from_wire(o) {
                Ok(t) => t,
                Err(e) => {
                    return Err(e);
                },
            },
            None => {
                return Err(DecodeError::Shape(String::from_str("room")));
            },
        };
        let sender = match j.get("sender") {
            Some(o) => match Sender::from_wire(o) {
                Ok(t) => t,
                Err(e) => {
                    return Err(e);
                },
            },
            None => {
                return Err(DecodeError::Shape(String::from_str("sender")));
            },
        };
        Ok(RoomEnterItem { room, sender })
    }
}

/// The item of a room-exit event: who left which room.
#[derive(Debug)]
pub struct RoomExitItem {
    pub room: Room,
    pub sender: Sender,
}

/// Whether a wire value has the shape of a room-exit item.
pub open spec fn room_exit_item_shape(v: JsonV) -> bool {
    &&& lookup(v, "room"@) matches Some(r) && room_shape(r)
    &&& lookup(v, "sender"@) matches Some(s) && sender_shape(s)
}

/// Whether `t` is exactly what the wire value `v` stands for.
pub open spec fn room_exit_item_matches(t: RoomExitItem, v: JsonV) -> bool {
    &&& lookup(v, "room"@) matches Some(r) && room_matches(t.room, r)
    &&& lookup(v, "sender"@) matches Some(s) && sender_matches(t.sender, s)
}

impl RoomExitItem {
    /// Decodes a room-exit item from a wire value.
    pub fn from_wire(j: &Json) -> (r: Result<RoomExitItem, DecodeError>)
        ensures
            r matches Ok(t) ==> room_exit_item_matches(t, j@),
            r is Ok <==> room_exit_item_shape(j@),
            r matches Err(e) ==> e is Shape,
    {
        let room = match j.get("room") {
            Some(o) => match Room::from_wire(o) {
                Ok(t) => t,
                Err(e) => {
                    return Err(e);
                },
            },
            None => {
                return Err(DecodeError::Shape(String::from_str("room")));
            },
        };
        let sender = match j.get("sender") {
            Some(o) => match Sender::from_wire(o) {
                Ok(t) => t,
                Err(e) => {
                    return Err(e);
                },
            },
            None => {
                return Err(DecodeError::Shape(String::from_str("sender")));
            },
        };
        Ok(RoomExitItem { room, sender })
    }
}

/// The item of a room-message event: the message and the room it was
/// posted in.
#[derive(Debug)]
pub struct RoomMessageItem {
    pub message: Message,
    pub room: Room,
}

/// Whether a wire value has the shape of a room-message item.
pub open spec fn room_message_item_shape(v: JsonV) -> bool {
    &&& lookup(v, "message"@) matches Some(m) && message_shape(m)
    &&& lookup(v, "room"@) matches Some(r) && room_shape(r)
}

/// Whether `t` is exactly what the wire value `v` stands for.
pub open spec fn room_message_item_matches(t: RoomMessageItem, v: JsonV) -> bool {
    &&& lookup(v, "message"@) matches Some(m) && message_matches(t.message, m)
    &&& lookup(v, "room"@) matches Some(r) && room_matches(t.room, r)
}

impl RoomMessageItem {
    /// Decodes a room-message item from a wire value.
    pub fn from_wire(j: &Json) -> (r: Result<RoomMessageItem, DecodeError>)
        ensures
            r matches Ok(t) ==> room_message_item_matches(t, j@),
            r is Ok <==> room_message_item_shape(j@),
            r matches Err(e) ==> e is Shape,
    {
        let message = match j.get("message") {
            Some(o) => match Message::from_wire(o) {
                Ok(m) => m,
                Err(e) => {
                    return Err(e);
                },
            },
            None => {
                return Err(DecodeError::Shape(String::from_str("message")));
            },
        };
        let room = match j.get("room") {
            Some(o) => match Room::from_wire(o) {
                Ok(t) => t,
                Err(e) => {
                    return Err(e);
                },
            },
            None => {
                return Err(DecodeError::Shape(String::from_str("room")));
            },
        };
        Ok(RoomMessageItem { message, room })
    }

    /// The text of the delivered message.
    pub fn message(&self) -> (r: &str)
        ensures
            r@ == self.message.message@,
    {
        self.message.message.as_str()
    }
}

/// An inbound event payload, keyed by its `event` tag.
#[derive(Debug)]
#[allow(inconsistent_fields)]
pub enum HipchatRequest {
    RoomEnter { item: RoomEnterItem, oauth_client_id: Option<String>, webhook_id: i64 },
    RoomExit { item: RoomExitItem, oauth_client_id: Option<String>, webhook_id: i64 },
    RoomMessage { item: RoomMessageItem, oauth_client_id: Option<String>, webhook_id: i64 },
}

/// Whether a wire value has the shape of some inbound request: a known
/// `event` tag, an item of that variant's shape, an optional OAuth client
/// id and the delivering webhook's id.
pub open spec fn request_shape(v: JsonV) -> bool {
    &&& str_of(v, "event"@) matches Some(t) && (t == "room_enter"@ || t == "room_exit"@ || t
        == "room_message"@)
    &&& match str_of(v, "event"@) {
        Some(t) => if t == "room_enter"@ {
            lookup(v, "item"@) matches Some(o) && room_enter_item_shape(o)
        } else if t == "room_exit"@ {
            lookup(v, "item"@) matches Some(o) && room_exit_item_shape(o)
        } else {
            lookup(v, "item"@) matches Some(o) && room_message_item_shape(o)
        },
        None => false,
    }
    &&& opt_str_ok(v, "oauth_client_id"@)
    &&& int_of(v, "webhook_id"@) is Some
}

/// Whether `u` is exactly what the wire value `v` stands for.
pub open spec fn request_matches(u: HipchatRequest, v: JsonV) -> bool {
    &&& match u {
        HipchatRequest::RoomEnter { item, oauth_client_id, webhook_id } => {
            &&& str_of(v, "event"@) == Some("room_enter"@)
            &&& lookup(v, "item"@) matches Some(o) && room_enter_item_matches(item, o)
            &&& view_opt_str(oauth_client_id) == opt_str_of(v, "oauth_client_id"@)
            &&& int_of(v, "webhook_id"@) == Some(webhook_id as int)
        },
        HipchatRequest::RoomExit { item, oauth_client_id, webhook_id } => {
            &&& str_of(v, "event"@) == Some("room_exit"@)
            &&& lookup(v, "item"@) matches Some(o) && room_exit_item_matches(item, o)
            &&& view_opt_str(oauth_client_id) == opt_str_of(v, "oauth_client_id"@)
            &&& int_of(v, "webhook_id"@) == Some(webhook_id as int)
        },
        HipchatRequest::RoomMessage { item, oauth_client_id, webhook_id } => {
            &&& str_of(v, "event"@) == Some("room_message"@)
            &&& lookup(v, "item"@) matches Some(o) && room_message_item_matches(item, o)
            &&& view_opt_str(oauth_client_id) == opt_str_of(v, "oauth_client_id"@)
            &&& int_of(v, "webhook_id"@) == Some(webhook_id as int)
        },
    }
}

impl HipchatRequest {
    /// Decodes an inbound request from a wire value, keyed by its
    /// explicit `event` tag.  An unknown or missing tag, or a body whose
    /// shape does not match the named variant, is a decode error.
    pub fn from_wire(j: &Json) -> (r: Result<HipchatRequest, DecodeError>)
        ensures
            r matches Ok(u) ==> request_matches(u, j@),
            r is Ok <==> request_shape(j@),
            r matches Err(e) ==> e is Shape,
    {
        let tag = match get_str(j, "event") {
            Ok(t) => t,
            Err(e) => {
                return Err(e);
            },
        };
        let oauth_client_id = match get_opt_str(j, "oauth_client_id") {
            Ok(o) => o,
            Err(e) => {
                return Err(e);
            },
        };
        let webhook_id = match get_i64(j, "webhook_id") {
            Ok(x) => x,
            Err(e) => {
                return Err(e);
            },
        };
        if str_eq(tag.as_str(), "room_enter") {
            let item = match j.get("item") {
                Some(o) => match RoomEnterItem::from_wire(o) {
                    Ok(t) => t,
                    Err(e) => {
                        return Err(e);
                    },
                },
                None => {
                    return Err(DecodeError::Shape(String::from_str("item")));
                },
            };
            Ok(HipchatRequest::RoomEnter { item, oauth_client_id, webhook_id })
        } else if str_eq(tag.as_str(), "room_exit") {
            let item = match j.get("item") {
                Some(o) => match RoomExitItem::from_wire(o) {
                    Ok(t) => t,
                    Err(e) => {
                        return Err(e);
                    },
                },
                None => {
                    return Err(DecodeError::Shape(String::from_str("item")));
                },
            };
            Ok(HipchatRequest::RoomExit { item, oauth_client_id, webhook_id })
        } else if str_eq(tag.as_str(), "room_message") {
            let item = match j.get("item") {
                Some(o) => match RoomMessageItem::from_wire(o) {
                    Ok(t) => t,
                    Err(e) => {
                        return Err(e);
                    },
                },
                None => {
                    return Err(DecodeError::Shape(String::from_str("item")));
                },
            };
            Ok(HipchatRequest::RoomMessage { item, oauth_client_id, webhook_id })
        } else {
            Err(DecodeError::Shape(String::from_str("event")))
        }
    }

    /// Decodes an inbound request from JSON text: the text must be one
    /// JSON value of the model's grammar, of a request's shape.
    pub fn from_json(s: &str) -> (r: Result<HipchatRequest, DecodeError>)
        ensures
            r matches Ok(u) ==> spec_parse_text(s@) matches Some(v) && request_matches(u, v),
            r is Ok <==> (spec_parse_text(s@) matches Some(v) && request_shape(v)),
            spec_parse_text(s@) is None ==> (r matches Err(e) && e is Syntax),
            spec_parse_text(s@) is Some && r is Err ==> (r matches Err(e) && e is Shape),
    {
        match parse_json(s) {
            Some(j) => Self::from_wire(&j),
            None => Err(DecodeError::Syntax),
        }
    }
}

} // verus!
