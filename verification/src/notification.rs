//! The notification schema: an outbound message payload, plain or
//! card-rich, sent to a chat room.
//!
//! The card's `description` is an either-shape value: on the wire it is
//! a bare string or a `{value, format}` object, and both shapes round
//! trip through the decoder.

use vstd::prelude::*;

use crate::json::{
    lookup, members_view, opt_member, opt_str_view, opt_bool_view, opt_u32_view, push_member,
    push_opt_bool, push_opt_str, push_opt_u32, push_str_member, render, render_spec, seq_view,
    str_eq, DecodeError, Json, JsonV,
};

verus! {

/// How a message body is to be read: as HTML or as plain text.
#[derive(Clone, Copy, Debug, PartialEq, Eq, Structural)]
pub enum MessageFormat {
    Html,
    Text,
}

impl MessageFormat {
    /// The snake_case string tag this format serializes to.
    pub open spec fn spec_tag(self) -> Seq<char> {
        match self {
            MessageFormat::Html => "html"@,
            MessageFormat::Text => "text"@,
        }
    }

    /// The wire tag of this format.
    pub fn tag(self) -> (r: &'static str)
        ensures
            r@ == self.spec_tag(),
    {
        match self {
            MessageFormat::Html => "html",
            MessageFormat::Text => "text",
        }
    }

    /// The format a wire tag names, or `None` for an unknown tag.
    pub fn from_tag(t: &str) -> (r: Option<MessageFormat>)
        ensures
            match r {
                Some(f) => f.spec_tag() == t@,
                None => t@ != "html"@ && t@ != "text"@,
            },
    {
        if str_eq(t, "html") {
            Some(MessageFormat::Html)
        } else if str_eq(t, "text") {
            Some(MessageFormat::Text)
        } else {
            None
        }
    }
}

/// The background colour of a notification.
#[derive(Clone, Copy, Debug, PartialEq, Eq, Structural)]
pub enum Color {
    Yellow,
    Green,
    Red,
    Purple,
    Gray,
    Random,
}

impl Color {
    /// The snake_case string tag this colour serializes to.
    pub open spec fn spec_tag(self) -> Seq<char> {
        match self {
            Color::Yellow => "yellow"@,
            Color::Green => "green"@,
            Color::Red => "red"@,
            Color::Purple => "purple"@,
            Color::Gray => "gray"@,
            Color::Random => "random"@,
        }
    }

    /// The wire tag of this colour.
    pub fn tag(self) -> (r: &'static str)
        ensures
            r@ == self.spec_tag(),
    {
        match self {
            Color::Yellow => "yellow",
            Color::Green => "green",
            Color::Red => "red",
            Color::Purple => "purple",
            Color::Gray => "gray",
            Color::Random => "random",
        }
    }
}

/// The style of a card.
#[derive(Clone, Copy, Debug, PartialEq, Eq, Structural)]
pub enum Style {
    File,
    Image,
    Application,
    Link,
    Media,
}

impl Style {
    /// The snake_case string tag this style serializes to.
    pub open spec fn spec_tag(self) -> Seq<char> {
        match self {
            Style::File => "file"@,
            Style::Image => "image"@,
            Style::Application => "application"@,
            Style::Link => "link"@,
            Style::Media => "media"@,
        }
    }

    /// The wire tag of this style.
    pub fn tag(self) -> (r: &'static str)
        ensures
            r@ == self.spec_tag(),
    {
        match self {
            Style::File => "file",
            Style::Image => "image",
            Style::Application => "application",
            Style::Link => "link",
            Style::Media => "media",
        }
    }
}

/// The layout format of a card.
#[derive(Clone, Copy, Debug, PartialEq, Eq, Structural)]
pub enum Format {
    Compact,
    Medium,
}

impl Format {
    /// The snake_case string tag this layout serializes to.
    pub open spec fn spec_tag(self) -> Seq<char> {
        match self {
            Format::Compact => "compact"@,
            Format::Medium => "medium"@,
        }
    }

    /// The wire tag of this layout.
    pub fn tag(self) -> (r: &'static str)
        ensures
            r@ == self.spec_tag(),
    {
        match self {
            Format::Compact => "compact",
            Format::Medium => "medium",
        }
    }
}

/// A card description.  On the wire it has two shapes: a bare string
/// (when `format` is unset) or a `{value, format}` object; the decoder
/// accepts both and yields the matching in-memory form.
#[derive(Debug)]
pub struct Description {
    pub value: String,
    pub format: Option<MessageFormat>,
}

/// Whether a wire value is one of the two description shapes: a bare
/// string, or an object with a string `value` and a known `format` tag.
pub open spec fn description_shape(v: JsonV) -> bool {
    match v {
        JsonV::Str(_) => true,
        JsonV::Obj(_) => {
            &&& lookup(v, "value"@) matches Some(JsonV::Str(_))
            &&& lookup(v, "format"@) matches Some(JsonV::Str(t)) && (t == "html"@ || t
                == "text"@)
        },
        _ => false,
    }
}

/// Whether `d` is exactly what the wire value `v` stands for.
pub open spec fn description_matches(d: Description, v: JsonV) -> bool {
    match v {
        JsonV::Str(s) => d.format is None && d.value@ == s,
        JsonV::Obj(_) => {
            &&& lookup(v, "value"@) == Some(JsonV::Str(d.value@))
            &&& d.format matches Some(f) && lookup(v, "format"@) == Some(
                JsonV::Str(f.spec_tag()),
            )
        },
        _ => false,
    }
}

impl Description {
    /// A structured description: a value with an explicit format; it
    /// encodes as a `{value, format}` object.
    pub fn new(value: &str, format: MessageFormat) -> (r: Description)
        ensures
            r.value@ == value@,
            r.format == Some(format),
    {
        Description { value: String::from_str(value), format: Some(format) }
    }

    /// A plain description: it encodes as a bare string.
    pub fn plain(value: &str) -> (r: Description)
        ensures
            r.value@ == value@,
            r.format is None,
    {
        Description { value: String::from_str(value), format: None }
    }

    /// The wire value this description encodes to: whichever of the two
    /// shapes the in-memory form stands for.
    pub open spec fn wire(self) -> JsonV {
        match self.format {
            None => JsonV::Str(self.value@),
            Some(f) => JsonV::Obj(
                seq![
                    ("value"@, JsonV::Str(self.value@)),
                    ("format"@, JsonV::Str(f.spec_tag())),
                ],
            ),
        }
    }

    /// Encodes this description as a JSON value.
    pub fn to_wire(&self) -> (r: Json)
        ensures
            r@ == self.wire(),
    {
        match &self.format {
            None => Json::Str(self.value.clone()),
            Some(f) => {
                let mut m: Vec<(String, Json)> = Vec::new();
                push_str_member(&mut m, "value", &self.value);
                push_member(&mut m, "format", Json::Str(String::from_str(f.tag())));
                let ghost mv = members_view(m@);
                let r = Json::Obj(m);
                proof {
                    assert(mv =~= seq![
                        ("value"@, JsonV::Str(self.value@)),
                        ("format"@, JsonV::Str(f.spec_tag())),
                    ]);
                }
                r
            },
        }
    }

    /// Decodes a description from a wire value, trying the bare-string
    /// shape first and the `{value, format}` object shape second.
    pub fn from_wire(j: &Json) -> (r: Result<Description, DecodeError>)
        ensures
            r matches Ok(d) ==> description_matches(d, j@),
            r is Ok <==> description_shape(j@),
            r matches Err(e) ==> e is Shape,
    {
        match j {
            Json::Str(s) => Ok(Description { value: s.clone(), format: None }),
            Json::Obj(_) => {
                let value = match j.get("value") {
                    Some(Json::Str(s)) => s.clone(),
                    _ => {
                        return Err(DecodeError::Shape(String::from_str("description.value")));
                    },
                };
                let format = match j.get("format") {
                    Some(Json::Str(t)) => match MessageFormat::from_tag(t.as_str()) {
                        Some(f) => f,
                        None => {
                            return Err(
                                DecodeError::Shape(String::from_str("description.format")),
                            );
                        },
                    },
                    _ => {
                        return Err(DecodeError::Shape(String::from_str("description.format")));
                    },
                };
                Ok(Description { value, format: Some(format) })
            },
            _ => Err(DecodeError::Shape(String::from_str("description"))),
        }
    }
}

/// Law: a description's own wire value is one the decoder accepts —
/// whichever shape it was encoded in, decoding does not error.
pub proof fn lemma_description_wire_decodes(d: Description)
    ensures
        description_shape(d.wire()),
{
    match d.format {
        None => {},
        Some(f) => {
            reveal_strlit("value");
            reveal_strlit("format");
            reveal_with_fuel(crate::json::lookup_members, 3);
            let ms = seq![
                ("value"@, JsonV::Str(d.value@)),
                ("format"@, JsonV::Str(f.spec_tag())),
            ];
            assert("value"@.len() == 5);
            assert("format"@.len() == 6);
            assert(ms.drop_first() =~= seq![("format"@, JsonV::Str(f.spec_tag()))]);
            assert(lookup(d.wire(), "value"@) == Some(JsonV::Str(d.value@)));
            assert(lookup(d.wire(), "format"@) == Some(JsonV::Str(f.spec_tag())));
            match f {
                MessageFormat::Html => {},
                MessageFormat::Text => {},
            }
        },
    }
}

/// Law: decoding a description's own wire value yields the description
/// back — the bare-string shape yields the bare-string form, and the
/// structured shape the structured form, with the same contents.
pub proof fn lemma_description_round_trip(d: Description, d2: Description)
    requires
        description_matches(d2, d.wire()),
    ensures
        d2.value@ == d.value@,
        d2.format == d.format,
{
    match d.format {
        None => {},
        Some(f) => {
            reveal_strlit("value");
            reveal_strlit("format");
            reveal_with_fuel(crate::json::lookup_members, 3);
            let ms = seq![
                ("value"@, JsonV::Str(d.value@)),
                ("format"@, JsonV::Str(f.spec_tag())),
            ];
            assert("value"@.len() == 5);
            assert("format"@.len() == 6);
            assert(ms.drop_first() =~= seq![("format"@, JsonV::Str(f.spec_tag()))]);
            assert(lookup(d.wire(), "value"@) == Some(JsonV::Str(d.value@)));
            assert(lookup(d.wire(), "format"@) == Some(JsonV::Str(f.spec_tag())));
            let f2 = d2.format->Some_0;
            assert(f2.spec_tag() == f.spec_tag());
            reveal_strlit("html");
            reveal_strlit("text");
            match f {
                MessageFormat::Html => {
                    assert("html"@.len() == 4 && "text"@.len() == 4);
                    assert("html"@[0] == 'h' && "text"@[0] == 't');
                },
                MessageFormat::Text => {
                    assert("html"@[0] == 'h' && "text"@[0] == 't');
                },
            }
        },
    }
}

/// A thumbnail image on a card.
#[derive(Debug)]
pub struct Thumbnail {
    pub url: String,
    pub url2x: Option<String>,
    pub width: Option<u32>,
    pub height: Option<u32>,
}

impl Thumbnail {
    /// A thumbnail with one image URL.
    pub fn new(url: &str) -> (r: Thumbnail)
        ensures
            r.url@ == url@,
            r.url2x is None,
            r.width is None,
            r.height is None,
    {
        Thumbnail { url: String::from_str(url), url2x: None, width: None, height: None }
    }

    /// A thumbnail with a high-resolution variant beside the image URL.
    pub fn with_2x(url: &str, url2x: &str) -> (r: Thumbnail)
        ensures
            r.url@ == url@,
            r.url2x matches Some(u) && u@ == url2x@,
            r.width is None,
            r.height is None,
    {
        Thumbnail {
            url: String::from_str(url),
            url2x: Some(String::from_str(url2x)),
            width: None,
            height: None,
        }
    }

    /// The JSON object this thumbnail encodes to.
    pub open spec fn wire(self) -> JsonV {
        JsonV::Obj(
            seq![("url"@, JsonV::Str(self.url@))] + opt_member("url2x"@, opt_str_view(self.url2x))
                + opt_member("width"@, opt_u32_view(self.width)) + opt_member(
                "height"@,
                opt_u32_view(self.height),
            ),
        )
    }

    /// Encodes this thumbnail as a JSON value.
    pub fn to_wire(&self) -> (r: Json)
        ensures
            r@ == self.wire(),
    {
        let mut m: Vec<(String, Json)> = Vec::new();
        push_str_member(&mut m, "url", &self.url);
        push_opt_str(&mut m, "url2x", &self.url2x);
        push_opt_u32(&mut m, "width", &self.width);
        push_opt_u32(&mut m, "height", &self.height);
        let ghost mv = members_view(m@);
        let r = Json::Obj(m);
        proof {
            assert(mv =~= seq![("url"@, JsonV::Str(self.url@))] + opt_member(
                "url2x"@,
                opt_str_view(self.url2x),
            ) + opt_member("width"@, opt_u32_view(self.width)) + opt_member(
                "height"@,
                opt_u32_view(self.height),
            ));
        }
        r
    }
}

/// An icon: a URL and an optional high-resolution URL.
#[derive(Debug)]
pub struct Icon {
    pub url: String,
    pub url2x: Option<String>,
}

impl Icon {
    /// The JSON object this icon encodes to.
    pub open spec fn wire(self) -> JsonV {
        JsonV::Obj(
            seq![("url"@, JsonV::Str(self.url@))] + opt_member(
                "url2x"@,
                opt_str_view(self.url2x),
            ),
        )
    }

    /// Encodes this icon as a JSON value.
    pub fn to_wire(&self) -> (r: Json)
        ensures
            r@ == self.wire(),
    {
        let mut m: Vec<(String, Json)> = Vec::new();
        push_str_member(&mut m, "url", &self.url);
        push_opt_str(&mut m, "url2x", &self.url2x);
        let ghost mv = members_view(m@);
        let r = Json::Obj(m);
        proof {
            assert(mv =~= seq![("url"@, JsonV::Str(self.url@))] + opt_member(
                "url2x"@,
                opt_str_view(self.url2x),
            ));
        }
        r
    }
}

/// An activity block on a card: rendered HTML with an optional icon.
#[derive(Debug)]
pub struct Activity {
    pub html: String,
    pub icon: Option<Icon>,
}

impl Activity {
    /// An activity block without an icon.
    pub fn new(html: &str) -> (r: Activity)
        ensures
            r.html@ == html@,
            r.icon is None,
    {
        Activity { html: String::from_str(html), icon: None }
    }

    /// The JSON object this activity block encodes to.
    pub open spec fn wire(self) -> JsonV {
        JsonV::Obj(
            seq![("html"@, JsonV::Str(self.html@))] + opt_member(
                "icon"@,
                match self.icon {
                    Some(ic) => Some(ic.wire()),
                    None => None,
                },
            ),
        )
    }

    /// Encodes this activity block as a JSON value.
    pub fn to_wire(&self) -> (r: Json)
        ensures
            r@ == self.wire(),
    {
        let mut m: Vec<(String, Json)> = Vec::new();
        push_str_member(&mut m, "html", &self.html);
        match &self.icon {
            Some(ic) => push_member(&mut m, "icon", ic.to_wire()),
            None => (),
        }
        let ghost mv = members_view(m@);
        let r = Json::Obj(m);
        proof {
            assert(mv =~= seq![("html"@, JsonV::Str(self.html@))] + opt_member(
                "icon"@,
                match self.icon {
                    Some(ic) => Some(ic.wire()),
                    None => None,
                },
            ));
        }
        r
    }
}

/// The lozenge style of a card attribute; serializes in kebab-case.
#[derive(Clone, Copy, Debug, PartialEq, Eq, Structural)]
pub enum AttributeStyle {
    LozengeSuccess,
    LozengeError,
    LozengeCurrent,
    LozengeComplete,
    LozengeMoved,
    Lozenge,
}

impl AttributeStyle {
    /// The kebab-case string tag this style serializes to.
    pub open spec fn spec_tag(self) -> Seq<char> {
        match self {
            AttributeStyle::LozengeSuccess => "lozenge-success"@,
            AttributeStyle::LozengeError => "lozenge-error"@,
            AttributeStyle::LozengeCurrent => "lozenge-current"@,
            AttributeStyle::LozengeComplete => "lozenge-complete"@,
            AttributeStyle::LozengeMoved => "lozenge-moved"@,
            AttributeStyle::Lozenge => "lozenge"@,
        }
    }

    /// The wire tag of this style.
    pub fn tag(self) -> (r: &'static str)
        ensures
            r@ == self.spec_tag(),
    {
        match self {
            AttributeStyle::LozengeSuccess => "lozenge-success",
            AttributeStyle::LozengeError => "lozenge-error",
            AttributeStyle::LozengeCurrent => "lozenge-current",
            AttributeStyle::LozengeComplete => "lozenge-complete",
            AttributeStyle::LozengeMoved => "lozenge-moved",
            AttributeStyle::Lozenge => "lozenge",
        }
    }
}

/// One attribute row of a card.
#[derive(Debug)]
pub struct Attribute {
    pub url: Option<String>,
    pub style: Option<AttributeStyle>,
}

impl Attribute {
    /// The JSON object this attribute encodes to.
    pub open spec fn wire(self) -> JsonV {
        JsonV::Obj(
            opt_member("url"@, opt_str_view(self.url)) + opt_member(
                "style"@,
                match self.style {
                    Some(st) => Some(JsonV::Str(st.spec_tag())),
                    None => None,
                },
            ),
        )
    }

    /// Encodes this attribute as a JSON value.
    pub fn to_wire(&self) -> (r: Json)
        ensures
            r@ == self.wire(),
    {
        let mut m: Vec<(String, Json)> = Vec::new();
        push_opt_str(&mut m, "url", &self.url);
        match &self.style {
            Some(st) => push_member(&mut m, "style", Json::Str(String::from_str(st.tag()))),
            None => (),
        }
        let ghost mv = members_view(m@);
        let r = Json::Obj(m);
        proof {
            assert(mv =~= opt_member("url"@, opt_str_view(self.url)) + opt_member(
                "style"@,
                match self.style {
                    Some(st) => Some(JsonV::Str(st.spec_tag())),
                    None => None,
                },
            ));
        }
        r
    }
}

/// The models of an attribute list.
pub open spec fn attributes_view(v: Seq<Attribute>) -> Seq<JsonV> {
    Seq::new(
        v.len(),
        |i: int|
            if 0 <= i < v.len() {
                v[i].wire()
            } else {
                JsonV::Null
            },
    )
}

/// An attribute list as a JSON array.
fn attributes_to_json(v: &Vec<Attribute>) -> (r: Json)
    ensures
        r@ == JsonV::Arr(attributes_view(v@)),
{
    let n = v.len();
    let mut items: Vec<Json> = Vec::new();
    let mut i: usize = 0;
    while i < n
        invariant
            i <= n,
            n == v@.len(),
            seq_view(items@) =~= attributes_view(v@).take(i as int),
        decreases n - i,
    {
        let jc = v[i].to_wire();
        proof {
            assert(jc@ == v@[i as int].wire());
            assert(seq_view(items@).len() == items@.len());
        }
        items.push(jc);
        proof {
            assert(items@[i as int]@ == v@[i as int].wire());
            assert(seq_view(items@) =~= attributes_view(v@).take(i + 1));
        }
        i = i + 1;
    }
    proof {
        assert(attributes_view(v@).take(n as int) =~= attributes_view(v@));
    }
    Json::Arr(items)
}

/// A rich card attached to a notification.  The `id` is caller-supplied
/// and correlates later updates to the same card.
#[derive(Debug)]
pub struct Card {
    pub style: Style,
    pub description: Option<Description>,
    pub format: Format,
    pub url: Option<String>,
    pub title: String,
    pub thumbnail: Option<Thumbnail>,
    pub activity: Option<Activity>,
    pub attributes: Option<Vec<Attribute>>,
    pub id: String,
    pub icon: Option<Icon>,
}

impl Card {
    /// A card with an activity block.
    pub fn new(style: Style, format: Format, title: &str, id: &str, activity: Activity) -> (r:
        Card)
        ensures
            r.style == style,
            r.description is None,
            r.format == format,
            r.url is None,
            r.title@ == title@,
            r.thumbnail is None,
            r.activity == Some(activity),
            r.attributes is None,
            r.id@ == id@,
            r.icon is None,
    {
        Card {
            style,
            description: None,
            format,
            url: None,
            title: String::from_str(title),
            thumbnail: None,
            activity: Some(activity),
            attributes: None,
            id: String::from_str(id),
            icon: None,
        }
    }

    /// A card with a thumbnail in place of an activity block.
    pub fn with_thumbnail(
        style: Style,
        format: Format,
        title: &str,
        id: &str,
        thumbnail: Thumbnail,
    ) -> (r: Card)
        ensures
            r.style == style,
            r.description is None,
            r.format == format,
            r.url is None,
            r.title@ == title@,
            r.thumbnail == Some(thumbnail),
            r.activity is None,
            r.attributes is None,
            r.id@ == id@,
            r.icon is None,
    {
        Card {
            style,
            description: None,
            format,
            url: None,
            title: String::from_str(title),
            thumbnail: Some(thumbnail),
            activity: None,
            attributes: None,
            id: String::from_str(id),
            icon: None,
        }
    }

    /// The JSON object this card encodes to, in declaration key order.
    pub open spec fn wire(self) -> JsonV {
        JsonV::Obj(
            seq![("style"@, JsonV::Str(self.style.spec_tag()))] + opt_member(
                "description"@,
                match self.description {
                    Some(d) => Some(d.wire()),
                    None => None,
                },
            ) + seq![("format"@, JsonV::Str(self.format.spec_tag()))] + opt_member(
                "url"@,
                opt_str_view(self.url),
            ) + seq![("title"@, JsonV::Str(self.title@))] + opt_member(
                "thumbnail"@,
                match self.thumbnail {
                    Some(t) => Some(t.wire()),
                    None => None,
                },
            ) + opt_member(
                "activity"@,
                match self.activity {
                    Some(a) => Some(a.wire()),
                    None => None,
                },
            ) + opt_member(
                "attributes"@,
                match self.attributes {
                    Some(v) => Some(JsonV::Arr(attributes_view(v@))),
                    None => None,
                },
            ) + seq![("id"@, JsonV::Str(self.id@))] + opt_member(
                "icon"@,
                match self.icon {
                    Some(ic) => Some(ic.wire()),
                    None => None,
                },
            ),
        )
    }

    /// Encodes this card as a JSON value.
    #[verifier::rlimit(60)]
    pub fn to_wire(&self) -> (r: Json)
        ensures
            r@ == self.wire(),
    {
        let mut m: Vec<(String, Json)> = Vec::new();
        push_member(&mut m, "style", Json::Str(String::from_str(self.style.tag())));
        match &self.description {
            Some(d) => push_member(&mut m, "description", d.to_wire()),
            None => (),
        }
        push_member(&mut m, "format", Json::Str(String::from_str(self.format.tag())));
        push_opt_str(&mut m, "url", &self.url);
        push_str_member(&mut m, "title", &self.title);
        match &self.thumbnail {
            Some(t) => push_member(&mut m, "thumbnail", t.to_wire()),
            None => (),
        }
        match &self.activity {
            Some(a) => push_member(&mut m, "activity", a.to_wire()),
            None => (),
        }
        match &self.attributes {
            Some(v) => push_member(&mut m, "attributes", attributes_to_json(v)),
            None => (),
        }
        push_str_member(&mut m, "id", &self.id);
        match &self.icon {
            Some(ic) => push_member(&mut m, "icon", ic.to_wire()),
            None => (),
        }
        let ghost mv = members_view(m@);
        let r = Json::Obj(m);
        proof {
            assert(r@ =~~= self.wire());
        }
        r
    }
}

/// An outbound room notification.
#[derive(Debug)]
pub struct Notification {
    pub from: Option<String>,
    pub message_format: Option<MessageFormat>,
    pub color: Option<Color>,
    pub attach_to: Option<String>,
    pub notify: Option<bool>,
    pub message: String,
    pub card: Option<Card>,
}

impl Notification {
    /// A plain notification: a message with a colour and a format.
    pub fn basic(message: &str, color: Color, format: MessageFormat) -> (r: Notification)
        ensures
            r.from is None,
            r.message_format == Some(format),
            r.color == Some(color),
            r.attach_to is None,
            r.notify is None,
            r.message@ == message@,
            r.card is None,
    {
        Notification {
            from: None,
            message_format: Some(format),
            color: Some(color),
            attach_to: None,
            notify: None,
            message: String::from_str(message),
            card: None,
        }
    }

    /// A notification carrying a card beside the message.
    pub fn with_card(message: &str, color: Color, format: MessageFormat, card: Card) -> (r:
        Notification)
        ensures
            r.from is None,
            r.message_format == Some(format),
            r.color == Some(color),
            r.attach_to is None,
            r.notify is None,
            r.message@ == message@,
            r.card == Some(card),
    {
        Notification {
            from: None,
            message_format: Some(format),
            color: Some(color),
            attach_to: None,
            notify: None,
            message: String::from_str(message),
            card: Some(card),
        }
    }

    /// The JSON object this notification encodes to.
    pub open spec fn wire(self) -> JsonV {
        JsonV::Obj(
            opt_member("from"@, opt_str_view(self.from)) + opt_member(
                "message_format"@,
                match self.message_format {
                    Some(f) => Some(JsonV::Str(f.spec_tag())),
                    None => None,
                },
            ) + opt_member(
                "color"@,
                match self.color {
                    Some(col) => Some(JsonV::Str(col.spec_tag())),
                    None => None,
                },
            ) + opt_member("attach_to"@, opt_str_view(self.attach_to)) + opt_member(
                "notify"@,
                opt_bool_view(self.notify),
            ) + seq![("message"@, JsonV::Str(self.message@))] + opt_member(
                "card"@,
                match self.card {
                    Some(cd) => Some(cd.wire()),
                    None => None,
                },
            ),
        )
    }

    /// Encodes this notification as a JSON value.
    #[verifier::rlimit(60)]
    pub fn to_wire(&self) -> (r: Json)
        ensures
            r@ == self.wire(),
    {
        let mut m: Vec<(String, Json)> = Vec::new();
        push_opt_str(&mut m, "from", &self.from);
        match &self.message_format {
            Some(f) => push_member(&mut m, "message_format", Json::Str(String::from_str(f.tag()))),
            None => (),
        }
        match &self.color {
            Some(col) => push_member(&mut m, "color", Json::Str(String::from_str(col.tag()))),
            None => (),
        }
        push_opt_str(&mut m, "attach_to", &self.attach_to);
        push_opt_bool(&mut m, "notify", &self.notify);
        push_str_member(&mut m, "message", &self.message);
        match &self.card {
            Some(cd) => push_member(&mut m, "card", cd.to_wire()),
            None => (),
        }
        let ghost mv = members_view(m@);
        let r = Json::Obj(m);
        proof {
            assert(r@ =~~= self.wire());
        }
        r
    }

    /// The compact JSON text of this notification.  The text parses back
    /// to exactly the notification's wire object.
    pub fn to_json(&self) -> (r: String)
        ensures
            r@ == render_spec(self.wire()),
            crate::parse::spec_parse_text(r@) == Some(self.wire()),
    {
        let j = self.to_wire();
        proof {
            crate::round_trip::lemma_json_text_round_trip(j);
        }
        render(&j)
    }
}

} // verus!
