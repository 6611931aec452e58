//! The capability descriptor schema: the manifest an integration presents
//! to the platform, with its identity, links, API-consumer scopes and
//! webhook subscriptions.
//!
//! Each type states in `wire()` exactly which JSON object it encodes to:
//! which keys appear, in which order, and that unset optional fields are
//! omitted altogether rather than emitted as `null`.

use vstd::prelude::*;

use crate::event::Event;
use crate::json::{
    has_key, lemma_lookup_concat_miss, lemma_lookup_in, lookup, lookup_members, members_view,
    opt_member, opt_str_view, push_member, push_opt_str, push_str_member, render, render_spec,
    seq_view, Json, JsonV,
};

verus! {

/// A scope the integration may ask for on the platform's REST API.
#[derive(Clone, Copy, Debug, PartialEq, Eq, Structural)]
pub enum Scope {
    AdminGroup,
    AdminRoom,
    ManageRooms,
    SendMessage,
    SendNotification,
    ViewGroup,
    ViewMessages,
    ViewRoom,
}

impl Scope {
    /// The snake_case string tag this scope serializes to.
    pub open spec fn spec_tag(self) -> Seq<char> {
        match self {
            Scope::AdminGroup => "admin_group"@,
            Scope::AdminRoom => "admin_room"@,
            Scope::ManageRooms => "manage_rooms"@,
            Scope::SendMessage => "send_message"@,
            Scope::SendNotification => "send_notification"@,
            Scope::ViewGroup => "view_group"@,
            Scope::ViewMessages => "view_messages"@,
            Scope::ViewRoom => "view_room"@,
        }
    }

    /// The snake_case wire tag of this scope.
    pub fn tag(self) -> (r: &'static str)
        ensures
            r@ == self.spec_tag(),
    {
        match self {
            Scope::AdminGroup => "admin_group",
            Scope::AdminRoom => "admin_room",
            Scope::ManageRooms => "manage_rooms",
            Scope::SendMessage => "send_message",
            Scope::SendNotification => "send_notification",
            Scope::ViewGroup => "view_group",
            Scope::ViewMessages => "view_messages",
            Scope::ViewRoom => "view_room",
        }
    }
}

/// The models of a scope list: an array of tag strings.
pub open spec fn scopes_view(v: Seq<Scope>) -> Seq<JsonV> {
    Seq::new(
        v.len(),
        |i: int|
            if 0 <= i < v.len() {
                JsonV::Str(v[i].spec_tag())
            } else {
                JsonV::Null
            },
    )
}

/// A scope list as a JSON array of tag strings.
fn scopes_to_json(v: &Vec<Scope>) -> (r: Json)
    ensures
        r@ == JsonV::Arr(scopes_view(v@)),
{
    let n = v.len();
    let mut items: Vec<Json> = Vec::new();
    let mut i: usize = 0;
    while i < n
        invariant
            i <= n,
            n == v@.len(),
            seq_view(items@) =~= scopes_view(v@).take(i as int),
        decreases n - i,
    {
        let jc = Json::Str(String::from_str(v[i].tag()));
        proof {
            assert(jc@ == JsonV::Str(v@[i as int].spec_tag()));
            assert(seq_view(items@).len() == items@.len());
        }
        items.push(jc);
        proof {
            assert(items@[i as int]@ == JsonV::Str(v@[i as int].spec_tag()));
            assert(seq_view(items@) =~= scopes_view(v@).take(i + 1));
        }
        i = i + 1;
    }
    proof {
        assert(scopes_view(v@).take(n as int) =~= scopes_view(v@));
    }
    Json::Arr(items)
}

/// A webhook subscription request, carrying the pattern payload of a
/// message subscription when there is one.
pub enum CapabilitiesEvent {
    RoomArchived,
    RoomCreated,
    RoomDeleted,
    RoomEnter,
    RoomExit,
    RoomFileUpload,
    RoomMessage(String),
    RoomNotification,
    RoomTopicChange,
    RoomUnarchived,
}

impl CapabilitiesEvent {
    /// The payload-free event this subscription is for.
    pub open spec fn base_event(self) -> Event {
        match self {
            CapabilitiesEvent::RoomArchived => Event::RoomArchived,
            CapabilitiesEvent::RoomCreated => Event::RoomCreated,
            CapabilitiesEvent::RoomDeleted => Event::RoomDeleted,
            CapabilitiesEvent::RoomEnter => Event::RoomEnter,
            CapabilitiesEvent::RoomExit => Event::RoomExit,
            CapabilitiesEvent::RoomFileUpload => Event::RoomFileUpload,
            CapabilitiesEvent::RoomMessage(_) => Event::RoomMessage,
            CapabilitiesEvent::RoomNotification => Event::RoomNotification,
            CapabilitiesEvent::RoomTopicChange => Event::RoomTopicChange,
            CapabilitiesEvent::RoomUnarchived => Event::RoomUnarchived,
        }
    }

    /// The message pattern the subscription carries, if any.
    pub open spec fn spec_pattern(self) -> Option<Seq<char>> {
        match self {
            CapabilitiesEvent::RoomMessage(p) => Some(p@),
            _ => None,
        }
    }
}

/// An extension point of the platform's manifest that this crate only
/// carries as an empty placeholder shape.
#[derive(Debug)]
pub struct Action {}

#[derive(Debug)]
pub struct AdminPage {}

#[derive(Debug)]
pub struct Configurable {}

#[derive(Debug)]
pub struct Dialog {}

#[derive(Debug)]
pub struct ExternalPage {}

#[derive(Debug)]
pub struct Glance {}

#[derive(Debug)]
pub struct Installable {}

#[derive(Debug)]
pub struct OAuth2Consumer {}

#[derive(Debug)]
pub struct OAuth2Provider {}

#[derive(Debug)]
pub struct WebPanel {}

/// The models of a list of placeholder shapes: empty objects.
pub open spec fn empty_objs_view<T>(v: Seq<T>) -> Seq<JsonV> {
    Seq::new(v.len(), |i: int| JsonV::Obj(Seq::empty()))
}

/// A list of placeholder shapes as a JSON array of empty objects.
fn empty_objs_to_json<T>(v: &Vec<T>) -> (r: Json)
    ensures
        r@ == JsonV::Arr(empty_objs_view(v@)),
{
    let n = v.len();
    let mut items: Vec<Json> = Vec::new();
    let mut i: usize = 0;
    while i < n
        invariant
            i <= n,
            n == v@.len(),
            seq_view(items@) =~= empty_objs_view(v@).take(i as int),
        decreases n - i,
    {
        let jc = Json::Obj(Vec::new());
        proof {
            assert(members_view(Seq::<(String, Json)>::empty()) =~= Seq::<
                (Seq<char>, JsonV),
            >::empty());
            assert(jc@ =~~= JsonV::Obj(Seq::<(Seq<char>, JsonV)>::empty()));
            assert(seq_view(items@).len() == items@.len());
        }
        items.push(jc);
        proof {
            assert(items@[i as int]@ == JsonV::Obj(Seq::<(Seq<char>, JsonV)>::empty()));
            assert(seq_view(items@) =~= empty_objs_view(v@).take(i + 1));
        }
        i = i + 1;
    }
    proof {
        assert(empty_objs_view(v@).take(n as int) =~= empty_objs_view(v@));
    }
    Json::Arr(items)
}

/// The vendor block of a descriptor: a name and a URL.
#[derive(Debug)]
pub struct Vendor {
    pub name: String,
    pub url: String,
}

impl Vendor {
    /// The JSON object this vendor block encodes to.
    pub open spec fn wire(self) -> JsonV {
        JsonV::Obj(
            seq![("name"@, JsonV::Str(self.name@)), ("url"@, JsonV::Str(self.url@))],
        )
    }

    /// Encodes this vendor block as a JSON value.
    pub fn to_wire(&self) -> (r: Json)
        ensures
            r@ == self.wire(),
    {
        let mut m: Vec<(String, Json)> = Vec::new();
        push_str_member(&mut m, "name", &self.name);
        push_str_member(&mut m, "url", &self.url);
        let ghost mv = members_view(m@);
        let r = Json::Obj(m);
        proof {
            assert(mv =~= seq![
                ("name"@, JsonV::Str(self.name@)),
                ("url"@, JsonV::Str(self.url@)),
            ]);
        }
        r
    }
}

/// The links block of a descriptor: the descriptor's own URL and an
/// optional homepage.
#[derive(Debug)]
pub struct Links {
    pub homepage: Option<String>,
    pub link_self: String,
}

impl Links {
    /// A links block pointing at the descriptor alone.
    pub fn new(link_self: &str) -> (r: Links)
        ensures
            r.homepage is None,
            r.link_self@ == link_self@,
    {
        Links { homepage: None, link_self: String::from_str(link_self) }
    }

    /// A links block with a homepage beside the descriptor's own URL.
    pub fn with_homepage(link_self: &str, homepage: &str) -> (r: Links)
        ensures
            r.homepage matches Some(h) && h@ == homepage@,
            r.link_self@ == link_self@,
    {
        Links {
            homepage: Some(String::from_str(homepage)),
            link_self: String::from_str(link_self),
        }
    }

    /// The JSON object this links block encodes to; the descriptor's own
    /// URL travels under the key `self`.
    pub open spec fn wire(self) -> JsonV {
        JsonV::Obj(
            opt_member("homepage"@, opt_str_view(self.homepage)) + seq![
                ("self"@, JsonV::Str(self.link_self@)),
            ],
        )
    }

    /// Encodes this links block as a JSON value.
    pub fn to_wire(&self) -> (r: Json)
        ensures
            r@ == self.wire(),
    {
        let mut m: Vec<(String, Json)> = Vec::new();
        push_opt_str(&mut m, "homepage", &self.homepage);
        push_str_member(&mut m, "self", &self.link_self);
        let ghost mv = members_view(m@);
        let r = Json::Obj(m);
        proof {
            assert(mv =~= opt_member("homepage"@, opt_str_view(self.homepage)) + seq![
                ("self"@, JsonV::Str(self.link_self@)),
            ]);
        }
        r
    }
}

/// An avatar: a URL and an optional high-resolution URL.
#[derive(Debug)]
pub struct Avatar {
    pub url: String,
    pub url2x: Option<String>,
}

impl Avatar {
    /// An avatar with one image URL.
    pub fn new(url: &str) -> (r: Avatar)
        ensures
            r.url@ == url@,
            r.url2x is None,
    {
        Avatar { url: String::from_str(url), url2x: None }
    }

    /// An avatar with a high-resolution variant beside the image URL.
    pub fn with_2x(url: &str, url2x: &str) -> (r: Avatar)
        ensures
            r.url@ == url@,
            r.url2x matches Some(u) && u@ == url2x@,
    {
        Avatar { url: String::from_str(url), url2x: Some(String::from_str(url2x)) }
    }

    /// The JSON object this avatar encodes to; the high-resolution URL
    /// travels under the key `url@2x`.
    pub open spec fn wire(self) -> JsonV {
        JsonV::Obj(
            seq![("url"@, JsonV::Str(self.url@))] + opt_member(
                "url@2x"@,
                opt_str_view(self.url2x),
            ),
        )
    }

    /// Encodes this avatar as a JSON value.
    pub fn to_wire(&self) -> (r: Json)
        ensures
            r@ == self.wire(),
    {
        let mut m: Vec<(String, Json)> = Vec::new();
        push_str_member(&mut m, "url", &self.url);
        push_opt_str(&mut m, "url@2x", &self.url2x);
        let ghost mv = members_view(m@);
        let r = Json::Obj(m);
        proof {
            assert(mv =~= seq![("url"@, JsonV::Str(self.url@))] + opt_member(
                "url@2x"@,
                opt_str_view(self.url2x),
            ));
        }
        r
    }
}

/// The API-consumer block: what the integration may do on the platform's
/// REST API, under which display name and avatar.
#[derive(Debug)]
pub struct HipchatApiConsumer {
    pub avatar: Option<Avatar>,
    pub from_name: String,
    pub scopes: Vec<Scope>,
}

impl HipchatApiConsumer {
    /// An API-consumer block without an avatar.
    pub fn new(from_name: &str, scopes: Vec<Scope>) -> (r: HipchatApiConsumer)
        ensures
            r.avatar is None,
            r.from_name@ == from_name@,
            r.scopes == scopes,
    {
        HipchatApiConsumer { avatar: None, from_name: String::from_str(from_name), scopes }
    }

    /// An API-consumer block with an avatar.
    pub fn with_avatar(avatar: Avatar, from_name: &str, scopes: Vec<Scope>) -> (r:
        HipchatApiConsumer)
        ensures
            r.avatar == Some(avatar),
            r.from_name@ == from_name@,
            r.scopes == scopes,
    {
        HipchatApiConsumer {
            avatar: Some(avatar),
            from_name: String::from_str(from_name),
            scopes,
        }
    }

    /// The JSON object this block encodes to.
    pub open spec fn wire(self) -> JsonV {
        JsonV::Obj(
            opt_member(
                "avatar"@,
                match self.avatar {
                    Some(a) => Some(a.wire()),
                    None => None,
                },
            ) + seq![
                ("from_name"@, JsonV::Str(self.from_name@)),
                ("scopes"@, JsonV::Arr(scopes_view(self.scopes@))),
            ],
        )
    }

    /// Encodes this block as a JSON value.
    pub fn to_wire(&self) -> (r: Json)
        ensures
            r@ == self.wire(),
    {
        let mut m: Vec<(String, Json)> = Vec::new();
        match &self.avatar {
            Some(a) => push_member(&mut m, "avatar", a.to_wire()),
            None => (),
        }
        push_str_member(&mut m, "from_name", &self.from_name);
        push_member(&mut m, "scopes", scopes_to_json(&self.scopes));
        let ghost mv = members_view(m@);
        let r = Json::Obj(m);
        proof {
            assert(mv =~= opt_member(
                "avatar"@,
                match self.avatar {
                    Some(a) => Some(a.wire()),
                    None => None,
                },
            ) + seq![
                ("from_name"@, JsonV::Str(self.from_name@)),
                ("scopes"@, JsonV::Arr(scopes_view(self.scopes@))),
            ]);
        }
        r
    }
}

/// One webhook subscription the integration advertises.
#[derive(Debug)]
pub struct WebHook {
    pub name: String,
    pub url: String,
    pub pattern: Option<String>,
    pub authentication: Option<String>,
    pub key: Option<String>,
    pub event: Event,
}

impl WebHook {
    /// The pattern field is populated exactly for a message subscription:
    /// the payload of the `RoomMessage` case travels in this sibling field.
    pub open spec fn wf(self) -> bool {
        self.pattern is Some <==> self.event == Event::RoomMessage
    }

    /// A webhook subscription.  The `pattern` field is derived from the
    /// event: it is set exactly when the event is a message subscription,
    /// and then holds that subscription's pattern.
    pub fn new(name: &str, url: &str, event: CapabilitiesEvent) -> (r: WebHook)
        ensures
            r.name@ == name@,
            r.url@ == url@,
            r.event == event.base_event(),
            opt_str_view(r.pattern) == match event.spec_pattern() {
                Some(p) => Some(JsonV::Str(p)),
                None => None::<JsonV>,
            },
            r.authentication is None,
            r.key is None,
            r.wf(),
    {
        let (event, pattern): (Event, Option<String>) = match event {
            CapabilitiesEvent::RoomArchived => (Event::RoomArchived, None),
            CapabilitiesEvent::RoomCreated => (Event::RoomCreated, None),
            CapabilitiesEvent::RoomDeleted => (Event::RoomDeleted, None),
            CapabilitiesEvent::RoomEnter => (Event::RoomEnter, None),
            CapabilitiesEvent::RoomExit => (Event::RoomExit, None),
            CapabilitiesEvent::RoomFileUpload => (Event::RoomFileUpload, None),
            CapabilitiesEvent::RoomMessage(p) => (Event::RoomMessage, Some(p)),
            CapabilitiesEvent::RoomNotification => (Event::RoomNotification, None),
            CapabilitiesEvent::RoomTopicChange => (Event::RoomTopicChange, None),
            CapabilitiesEvent::RoomUnarchived => (Event::RoomUnarchived, None),
        };
        WebHook {
            name: String::from_str(name),
            url: String::from_str(url),
            pattern,
            authentication: None,
            key: None,
            event,
        }
    }

    /// The JSON object this webhook encodes to: name, url, the optional
    /// pattern, authentication and key, and the event's tag.
    pub open spec fn wire(self) -> JsonV {
        JsonV::Obj(
            seq![("name"@, JsonV::Str(self.name@)), ("url"@, JsonV::Str(self.url@))]
                + opt_member("pattern"@, opt_str_view(self.pattern)) + opt_member(
                "authentication"@,
                opt_str_view(self.authentication),
            ) + opt_member("key"@, opt_str_view(self.key)) + seq![
                ("event"@, JsonV::Str(self.event.spec_tag())),
            ],
        )
    }

    /// Encodes this webhook as a JSON value.
    pub fn to_wire(&self) -> (r: Json)
        ensures
            r@ == self.wire(),
    {
        let mut m: Vec<(String, Json)> = Vec::new();
        push_str_member(&mut m, "name", &self.name);
        push_str_member(&mut m, "url", &self.url);
        push_opt_str(&mut m, "pattern", &self.pattern);
        push_opt_str(&mut m, "authentication", &self.authentication);
        push_opt_str(&mut m, "key", &self.key);
        push_member(&mut m, "event", Json::Str(String::from_str(self.event.tag())));
        let ghost mv = members_view(m@);
        let r = Json::Obj(m);
        proof {
            assert(mv =~= seq![
                ("name"@, JsonV::Str(self.name@)),
                ("url"@, JsonV::Str(self.url@)),
            ] + opt_member("pattern"@, opt_str_view(self.pattern)) + opt_member(
                "authentication"@,
                opt_str_view(self.authentication),
            ) + opt_member("key"@, opt_str_view(self.key)) + seq![
                ("event"@, JsonV::Str(self.event.spec_tag())),
            ]);
        }
        r
    }
}

/// The models of a webhook list.
pub open spec fn webhooks_view(v: Seq<WebHook>) -> Seq<JsonV> {
    Seq::new(
        v.len(),
        |i: int|
            if 0 <= i < v.len() {
                v[i].wire()
            } else {
                JsonV::Null
            },
    )
}

/// A webhook list as a JSON array.
fn webhooks_to_json(v: &Vec<WebHook>) -> (r: Json)
    ensures
        r@ == JsonV::Arr(webhooks_view(v@)),
{
    let n = v.len();
    let mut items: Vec<Json> = Vec::new();
    let mut i: usize = 0;
    while i < n
        invariant
            i <= n,
            n == v@.len(),
            seq_view(items@) =~= webhooks_view(v@).take(i as int),
        decreases n - i,
    {
        let jc = v[i].to_wire();
        proof {
            assert(jc@ == v@[i as int].wire());
            assert(seq_view(items@).len() == items@.len());
        }
        items.push(jc);
        proof {
            assert(items@[i as int]@ == v@[i as int].wire());
            assert(seq_view(items@) =~= webhooks_view(v@).take(i + 1));
        }
        i = i + 1;
    }
    proof {
        assert(webhooks_view(v@).take(n as int) =~= webhooks_view(v@));
    }
    Json::Arr(items)
}

/// The capabilities bag: the populated API-consumer block and webhook
/// list, plus the placeholder extension points kept for wire fidelity.
#[derive(Debug)]
pub struct Capabilities {
    pub action: Option<Vec<Action>>,
    pub admin_page: Option<AdminPage>,
    pub configurable: Option<Configurable>,
    pub dialog: Option<Vec<Dialog>>,
    pub external_page: Option<Vec<ExternalPage>>,
    pub glance: Option<Vec<Glance>>,
    pub hipchat_api_consumer: Option<HipchatApiConsumer>,
    pub installable: Option<Installable>,
    pub oauth2_consumer: Option<OAuth2Consumer>,
    pub oauth2_provider: Option<OAuth2Provider>,
    pub web_panel: Option<Vec<WebPanel>>,
    pub webhook: Vec<WebHook>,
}

impl Capabilities {
    /// A capabilities bag with the API-consumer block and webhook list
    /// set, and every extension point absent.
    pub fn new(api_consumer: HipchatApiConsumer, webhooks: Vec<WebHook>) -> (r: Capabilities)
        ensures
            r.action is None,
            r.admin_page is None,
            r.configurable is None,
            r.dialog is None,
            r.external_page is None,
            r.glance is None,
            r.hipchat_api_consumer == Some(api_consumer),
            r.installable is None,
            r.oauth2_consumer is None,
            r.oauth2_provider is None,
            r.web_panel is None,
            r.webhook == webhooks,
    {
        Capabilities {
            action: None,
            admin_page: None,
            configurable: None,
            dialog: None,
            external_page: None,
            glance: None,
            hipchat_api_consumer: Some(api_consumer),
            installable: None,
            oauth2_consumer: None,
            oauth2_provider: None,
            web_panel: None,
            webhook: webhooks,
        }
    }

    /// The JSON object this bag encodes to, in camelCase key order.
    pub open spec fn wire(self) -> JsonV {
        JsonV::Obj(
            opt_member(
                "action"@,
                match self.action {
                    Some(v) => Some(JsonV::Arr(empty_objs_view(v@))),
                    None => None,
                },
            ) + opt_member(
                "adminPage"@,
                match self.admin_page {
                    Some(_) => Some(JsonV::Obj(Seq::empty())),
                    None => None,
                },
            ) + opt_member(
                "configurable"@,
                match self.configurable {
                    Some(_) => Some(JsonV::Obj(Seq::empty())),
                    None => None,
                },
            ) + opt_member(
                "dialog"@,
                match self.dialog {
                    Some(v) => Some(JsonV::Arr(empty_objs_view(v@))),
                    None => None,
                },
            ) + opt_member(
                "externalPage"@,
                match self.external_page {
                    Some(v) => Some(JsonV::Arr(empty_objs_view(v@))),
                    None => None,
                },
            ) + opt_member(
                "glance"@,
                match self.glance {
                    Some(v) => Some(JsonV::Arr(empty_objs_view(v@))),
                    None => None,
                },
            ) + opt_member(
                "hipchatApiConsumer"@,
                match self.hipchat_api_consumer {
                    Some(c) => Some(c.wire()),
                    None => None,
                },
            ) + opt_member(
                "installable"@,
                match self.installable {
                    Some(_) => Some(JsonV::Obj(Seq::empty())),
                    None => None,
                },
            ) + opt_member(
                "oauth2Consumer"@,
                match self.oauth2_consumer {
                    Some(_) => Some(JsonV::Obj(Seq::empty())),
                    None => None,
                },
            ) + opt_member(
                "oauth2Provider"@,
                match self.oauth2_provider {
                    Some(_) => Some(JsonV::Obj(Seq::empty())),
                    None => None,
                },
            ) + opt_member(
                "webPanel"@,
                match self.web_panel {
                    Some(v) => Some(JsonV::Arr(empty_objs_view(v@))),
                    None => None,
                },
            ) + seq![("webhook"@, JsonV::Arr(webhooks_view(self.webhook@)))],
        )
    }

    /// Encodes this bag as a JSON value.
    #[verifier::rlimit(60)]
    pub fn to_wire(&self) -> (r: Json)
        ensures
            r@ == self.wire(),
    {
        let mut m: Vec<(String, Json)> = Vec::new();
        match &self.action {
            Some(v) => push_member(&mut m, "action", empty_objs_to_json(v)),
            None => (),
        }
        match &self.admin_page {
            Some(_) => push_member(&mut m, "adminPage", Json::Obj(Vec::new())),
            None => (),
        }
        match &self.configurable {
            Some(_) => push_member(&mut m, "configurable", Json::Obj(Vec::new())),
            None => (),
        }
        match &self.dialog {
            Some(v) => push_member(&mut m, "dialog", empty_objs_to_json(v)),
            None => (),
        }
        match &self.external_page {
            Some(v) => push_member(&mut m, "externalPage", empty_objs_to_json(v)),
            None => (),
        }
        match &self.glance {
            Some(v) => push_member(&mut m, "glance", empty_objs_to_json(v)),
            None => (),
        }
        match &self.hipchat_api_consumer {
            Some(c) => push_member(&mut m, "hipchatApiConsumer", c.to_wire()),
            None => (),
        }
        match &self.installable {
            Some(_) => push_member(&mut m, "installable", Json::Obj(Vec::new())),
            None => (),
        }
        match &self.oauth2_consumer {
            Some(_) => push_member(&mut m, "oauth2Consumer", Json::Obj(Vec::new())),
            None => (),
        }
        match &self.oauth2_provider {
            Some(_) => push_member(&mut m, "oauth2Provider", Json::Obj(Vec::new())),
            None => (),
        }
        match &self.web_panel {
            Some(v) => push_member(&mut m, "webPanel", empty_objs_to_json(v)),
            None => (),
        }
        push_member(&mut m, "webhook", webhooks_to_json(&self.webhook));
        let ghost mv = members_view(m@);
        let r = Json::Obj(m);
        proof {
            assert(members_view(Seq::<(String, Json)>::empty()) =~= Seq::<
                (Seq<char>, JsonV),
            >::empty());
            assert(r@ =~~= self.wire());
        }
        r
    }
}

/// The capability descriptor: the manifest an integration serves to the
/// platform, identifying itself and its capabilities.
#[derive(Debug)]
pub struct CapabilitiesDescriptor {
    pub api_version: Option<String>,
    pub capabilities: Option<Capabilities>,
    pub description: String,
    pub key: String,
    pub links: Links,
    pub name: String,
    pub vendor: Option<Vendor>,
}

impl CapabilitiesDescriptor {
    /// A descriptor for the given capabilities, with the API version and
    /// vendor block left absent.
    pub fn new(
        capabilities: Capabilities,
        description: &str,
        key: &str,
        links: Links,
        name: &str,
    ) -> (r: CapabilitiesDescriptor)
        ensures
            r.api_version is None,
            r.capabilities == Some(capabilities),
            r.description@ == description@,
            r.key@ == key@,
            r.links == links,
            r.name@ == name@,
            r.vendor is None,
    {
        CapabilitiesDescriptor {
            api_version: None,
            capabilities: Some(capabilities),
            description: String::from_str(description),
            key: String::from_str(key),
            links,
            name: String::from_str(name),
            vendor: None,
        }
    }

    /// The JSON object this descriptor encodes to, in camelCase key order.
    pub open spec fn wire(self) -> JsonV {
        JsonV::Obj(
            opt_member("apiVersion"@, opt_str_view(self.api_version)) + opt_member(
                "capabilities"@,
                match self.capabilities {
                    Some(c) => Some(c.wire()),
                    None => None,
                },
            ) + seq![
                ("description"@, JsonV::Str(self.description@)),
                ("key"@, JsonV::Str(self.key@)),
                ("links"@, self.links.wire()),
                ("name"@, JsonV::Str(self.name@)),
            ] + opt_member(
                "vendor"@,
                match self.vendor {
                    Some(v) => Some(v.wire()),
                    None => None,
                },
            ),
        )
    }

    /// Encodes this descriptor as a JSON value.
    pub fn to_wire(&self) -> (r: Json)
        ensures
            r@ == self.wire(),
    {
        let mut m: Vec<(String, Json)> = Vec::new();
        push_opt_str(&mut m, "apiVersion", &self.api_version);
        match &self.capabilities {
            Some(c) => push_member(&mut m, "capabilities", c.to_wire()),
            None => (),
        }
        push_str_member(&mut m, "description", &self.description);
        push_str_member(&mut m, "key", &self.key);
        push_member(&mut m, "links", self.links.to_wire());
        push_str_member(&mut m, "name", &self.name);
        match &self.vendor {
            Some(v) => push_member(&mut m, "vendor", v.to_wire()),
            None => (),
        }
        let ghost mv = members_view(m@);
        let r = Json::Obj(m);
        proof {
            assert(mv =~= opt_member("apiVersion"@, opt_str_view(self.api_version)) + opt_member(
                "capabilities"@,
                match self.capabilities {
                    Some(c) => Some(c.wire()),
                    None => None,
                },
            ) + seq![
                ("description"@, JsonV::Str(self.description@)),
                ("key"@, JsonV::Str(self.key@)),
                ("links"@, self.links.wire()),
                ("name"@, JsonV::Str(self.name@)),
            ] + opt_member(
                "vendor"@,
                match self.vendor {
                    Some(v) => Some(v.wire()),
                    None => None,
                },
            ));
        }
        r
    }

    /// The compact JSON text of this descriptor.  The text parses back to
    /// exactly the descriptor's wire object.
    pub fn to_json(&self) -> (r: String)
        ensures
            r@ == render_spec(self.wire()),
            crate::parse::spec_parse_text(r@) == Some(self.wire()),
    {
        let j = self.to_wire();
        proof {
            crate::round_trip::lemma_json_text_round_trip(j);
        }
        render(&j)
    }
}

/// Law: a webhook's wire object carries a `pattern` member exactly when
/// the pattern payload is set — a message subscription's pattern appears
/// under `pattern`, and the wire object of a webhook for any other event
/// has no `pattern` member at all, not even a null one.
pub proof fn lemma_webhook_pattern_field(w: WebHook)
    ensures
        w.pattern matches Some(p) ==> lookup(w.wire(), "pattern"@) == Some(JsonV::Str(p@)),
        w.pattern is None ==> !has_key(w.wire(), "pattern"@),
        w.wf() && w.event != Event::RoomMessage ==> !has_key(w.wire(), "pattern"@),
{
    reveal_with_fuel(crate::json::lookup_members, 3);
    reveal_strlit("name");
    reveal_strlit("url");
    reveal_strlit("pattern");
    reveal_strlit("authentication");
    reveal_strlit("key");
    reveal_strlit("event");
    let s1 = seq![("name"@, JsonV::Str(w.name@)), ("url"@, JsonV::Str(w.url@))];
    let s2 = opt_member("pattern"@, opt_str_view(w.pattern));
    let s3 = opt_member("authentication"@, opt_str_view(w.authentication));
    let s4 = opt_member("key"@, opt_str_view(w.key));
    let s5 = seq![("event"@, JsonV::Str(w.event.spec_tag()))];
    let all = s1 + s2 + s3 + s4 + s5;
    assert(w.wire() == JsonV::Obj(all));
    assert("name"@.len() == 4 && "url"@.len() == 3 && "pattern"@.len() == 7);
    assert("authentication"@.len() == 14 && "key"@.len() == 3 && "event"@.len() == 5);
    assert(forall|i: int| 0 <= i < s1.len() ==> (#[trigger] s1[i]).0 != "pattern"@);
    lemma_lookup_concat_miss(s1, s2 + s3 + s4 + s5, "pattern"@);
    assert(all =~= s1 + (s2 + s3 + s4 + s5));
    match w.pattern {
        Some(p) => {
            assert(lookup_members(s2 + s3 + s4 + s5, "pattern"@) == Some(JsonV::Str(p@))) by {
                assert((s2 + s3 + s4 + s5)[0] == ("pattern"@, JsonV::Str(p@)));
            }
        },
        None => {
            assert(s2 + s3 + s4 + s5 =~= s3 + s4 + s5);
            assert(forall|i: int|
                0 <= i < (s3 + s4).len() ==> (#[trigger] (s3 + s4)[i]).0 != "pattern"@);
            lemma_lookup_concat_miss(s3 + s4, s5, "pattern"@);
            assert(s3 + s4 + s5 =~= (s3 + s4) + s5);
            assert(lookup_members(s5, "pattern"@) is None);
        },
    }
}

/// Law: a capabilities bag with every extension point unset — as the
/// constructor builds it — encodes to exactly the members it has: the
/// API-consumer block when set and the webhook list, in that order.  No
/// absent extension point appears, and nothing appears as null.
pub proof fn lemma_capabilities_bare_wire(c: Capabilities)
    requires
        c.action is None,
        c.admin_page is None,
        c.configurable is None,
        c.dialog is None,
        c.external_page is None,
        c.glance is None,
        c.installable is None,
        c.oauth2_consumer is None,
        c.oauth2_provider is None,
        c.web_panel is None,
    ensures
        c.wire() == JsonV::Obj(
            opt_member(
                "hipchatApiConsumer"@,
                match c.hipchat_api_consumer {
                    Some(hc) => Some(hc.wire()),
                    None => None,
                },
            ) + seq![("webhook"@, JsonV::Arr(webhooks_view(c.webhook@)))],
        ),
{
    assert(c.wire()->Obj_0 =~= opt_member(
        "hipchatApiConsumer"@,
        match c.hipchat_api_consumer {
            Some(hc) => Some(hc.wire()),
            None => None,
        },
    ) + seq![("webhook"@, JsonV::Arr(webhooks_view(c.webhook@)))]);
}

/// Law: a descriptor with the API version and vendor block unset — as the
/// constructor builds it — encodes to exactly the five members it has, in
/// camelCase key order.  No absent optional field appears, and nothing
/// appears as null.
pub proof fn lemma_descriptor_bare_wire(d: CapabilitiesDescriptor)
    requires
        d.api_version is None,
        d.vendor is None,
    ensures
        d.wire() == JsonV::Obj(
            opt_member(
                "capabilities"@,
                match d.capabilities {
                    Some(c) => Some(c.wire()),
                    None => None,
                },
            ) + seq![
                ("description"@, JsonV::Str(d.description@)),
                ("key"@, JsonV::Str(d.key@)),
                ("links"@, d.links.wire()),
                ("name"@, JsonV::Str(d.name@)),
            ],
        ),
{
    assert(d.wire()->Obj_0 =~= opt_member(
        "capabilities"@,
        match d.capabilities {
            Some(c) => Some(c.wire()),
            None => None,
        },
    ) + seq![
        ("description"@, JsonV::Str(d.description@)),
        ("key"@, JsonV::Str(d.key@)),
        ("links"@, d.links.wire()),
        ("name"@, JsonV::Str(d.name@)),
    ]);
}

/// Law: nothing in a descriptor's wire object is a null — every member's
/// value is a string or a nested object, so an unset optional field is
/// omitted rather than emitted as null.
pub proof fn lemma_descriptor_no_null(d: CapabilitiesDescriptor, k: Seq<char>)
    ensures
        lookup(d.wire(), k) != Some(JsonV::Null),
{
    let all = d.wire()->Obj_0;
    if lookup(d.wire(), k) == Some(JsonV::Null) {
        lemma_lookup_in(all, k, JsonV::Null);
        assert(forall|i: int| 0 <= i < all.len() ==> !((#[trigger] all[i]).1 is Null));
    }
}

} // verus!
