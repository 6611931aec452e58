use hipchat::capabilities::{
    Avatar, CapabilitiesDescriptor, Capabilities, CapabilitiesEvent, HipchatApiConsumer, Links,
    Scope, WebHook,
};
use hipchat::event::Event;
use hipchat::json::Json;
use hipchat::notification::{
    Activity, Card, Color, Description, Format, MessageFormat, Notification, Style, Thumbnail,
};
use hipchat::parse::parse_json;

#[test]
fn it_works() {}

#[test]
fn links_builders() {
    let l = Links::new("https://example.com/cap");
    assert!(l.homepage.is_none());
    assert_eq!(l.link_self, "https://example.com/cap");
    let l2 = Links::with_homepage("https://example.com/cap", "https://example.com");
    assert_eq!(l2.homepage.as_deref(), Some("https://example.com"));
    assert_eq!(l2.link_self, "https://example.com/cap");
}

#[test]
fn avatar_builders() {
    let a = Avatar::new("https://example.com/a.png");
    assert!(a.url2x.is_none());
    let a2 = Avatar::with_2x("https://example.com/a.png", "https://example.com/a2.png");
    assert_eq!(a2.url2x.as_deref(), Some("https://example.com/a2.png"));
}

#[test]
fn webhook_pattern_present_only_for_message_subscription() {
    let wh = WebHook::new(
        "wh",
        "https://example.com/hook",
        CapabilitiesEvent::RoomMessage(String::from("^!bot")),
    );
    assert_eq!(wh.event, Event::RoomMessage);
    assert_eq!(wh.pattern.as_deref(), Some("^!bot"));

    let wh2 = WebHook::new("wh", "https://example.com/hook", CapabilitiesEvent::RoomCreated);
    assert_eq!(wh2.event, Event::RoomCreated);
    assert!(wh2.pattern.is_none());
}

#[test]
fn webhook_wire_text_pattern_field() {
    let wh = WebHook::new(
        "wh",
        "https://example.com/hook",
        CapabilitiesEvent::RoomMessage(String::from("^!bot")),
    );
    let text = hipchat::json::render(&wh.to_wire());
    assert_eq!(
        text,
        "{\"name\":\"wh\",\"url\":\"https://example.com/hook\",\"pattern\":\"^!bot\",\"event\":\"room_message\"}"
    );

    let wh2 = WebHook::new("wh", "https://example.com/hook", CapabilitiesEvent::RoomEnter);
    let text2 = hipchat::json::render(&wh2.to_wire());
    assert_eq!(
        text2,
        "{\"name\":\"wh\",\"url\":\"https://example.com/hook\",\"event\":\"room_enter\"}"
    );
    assert!(!text2.contains("pattern"));
}

fn demo_descriptor() -> CapabilitiesDescriptor {
    let consumer = HipchatApiConsumer::new("bot", vec![Scope::SendNotification]);
    let webhook = WebHook::new(
        "wh",
        "https://example.com/hook",
        CapabilitiesEvent::RoomMessage(String::from("^!bot")),
    );
    let caps = Capabilities::new(consumer, vec![webhook]);
    CapabilitiesDescriptor::new(
        caps,
        "An example integration",
        "com.example.bot",
        Links::new("https://example.com/cap"),
        "Example Bot",
    )
}

#[test]
fn descriptor_encodes_to_expected_text() {
    let text = demo_descriptor().to_json();
    let expected = "{\"capabilities\":{\"hipchatApiConsumer\":{\"from_name\":\"bot\",\"scopes\":[\"send_notification\"]},\"webhook\":[{\"name\":\"wh\",\"url\":\"https://example.com/hook\",\"pattern\":\"^!bot\",\"event\":\"room_message\"}]},\"description\":\"An example integration\",\"key\":\"com.example.bot\",\"links\":{\"self\":\"https://example.com/cap\"},\"name\":\"Example Bot\"}";
    assert_eq!(text, expected);
}

#[test]
fn descriptor_output_holds_webhook_pattern_and_event() {
    let text = demo_descriptor().to_json();
    let parsed = parse_json(&text).expect("descriptor text parses back");
    let caps = parsed.get("capabilities").expect("capabilities present");
    let hooks = match caps.get("webhook") {
        Some(Json::Arr(items)) => items,
        _ => panic!("webhook list missing"),
    };
    assert_eq!(hooks.len(), 1);
    match hooks[0].get("pattern") {
        Some(Json::Str(p)) => assert_eq!(p, "^!bot"),
        _ => panic!("pattern missing"),
    }
    match hooks[0].get("event") {
        Some(Json::Str(t)) => assert_eq!(t, "room_message"),
        _ => panic!("event missing"),
    }
}

#[test]
fn descriptor_omits_absent_optionals_and_never_null() {
    let text = demo_descriptor().to_json();
    assert!(!text.contains("apiVersion"));
    assert!(!text.contains("vendor"));
    assert!(!text.contains("null"));
    assert!(!text.contains("adminPage"));
    assert!(!text.contains("oauth2Consumer"));
}

#[test]
fn notification_basic_text() {
    let n = Notification::basic("hi there", Color::Green, MessageFormat::Html);
    assert_eq!(
        n.to_json(),
        "{\"message_format\":\"html\",\"color\":\"green\",\"message\":\"hi there\"}"
    );
}

#[test]
fn notification_with_card_text() {
    let card = Card::new(
        Style::Application,
        Format::Medium,
        "A title",
        "card-1",
        Activity::new("<b>done</b>"),
    );
    let n = Notification::with_card("fallback", Color::Yellow, MessageFormat::Text, card);
    let expected = "{\"message_format\":\"text\",\"color\":\"yellow\",\"message\":\"fallback\",\"card\":{\"style\":\"application\",\"format\":\"medium\",\"title\":\"A title\",\"activity\":{\"html\":\"<b>done</b>\"},\"id\":\"card-1\"}}";
    assert_eq!(n.to_json(), expected);
}

#[test]
fn card_with_thumbnail_builder() {
    let t = Thumbnail::with_2x("https://example.com/t.png", "https://example.com/t2.png");
    let card = Card::with_thumbnail(Style::Link, Format::Compact, "T", "id9", t);
    assert!(card.activity.is_none());
    let text = hipchat::json::render(&card.to_wire());
    let expected = "{\"style\":\"link\",\"format\":\"compact\",\"title\":\"T\",\"thumbnail\":{\"url\":\"https://example.com/t.png\",\"url2x\":\"https://example.com/t2.png\"},\"id\":\"id9\"}";
    assert_eq!(text, expected);
}

#[test]
fn message_escaping_in_output() {
    let n = Notification::basic("a\"b\\c\nd", Color::Red, MessageFormat::Text);
    assert_eq!(
        n.to_json(),
        "{\"message_format\":\"text\",\"color\":\"red\",\"message\":\"a\\\"b\\\\c\\nd\"}"
    );
}

#[test]
fn description_round_trip_both_shapes() {
    let plain = Description::plain("just words");
    let back = Description::from_wire(&plain.to_wire()).expect("plain shape decodes");
    assert_eq!(back.value, "just words");
    assert!(back.format.is_none());

    let rich = Description::new("marked up", MessageFormat::Html);
    let back2 = Description::from_wire(&rich.to_wire()).expect("structured shape decodes");
    assert_eq!(back2.value, "marked up");
    assert_eq!(back2.format, Some(MessageFormat::Html));
}

#[test]
fn description_round_trip_through_text() {
    let plain = Description::plain("just words");
    let text = hipchat::json::render(&plain.to_wire());
    assert_eq!(text, "\"just words\"");
    let parsed = parse_json(&text).expect("bare string parses");
    let back = Description::from_wire(&parsed).expect("plain shape decodes");
    assert!(back.format.is_none());
    assert_eq!(back.value, "just words");

    let rich = Description::new("marked up", MessageFormat::Text);
    let text2 = hipchat::json::render(&rich.to_wire());
    assert_eq!(text2, "{\"value\":\"marked up\",\"format\":\"text\"}");
    let parsed2 = parse_json(&text2).expect("object form parses");
    let back2 = Description::from_wire(&parsed2).expect("structured shape decodes");
    assert_eq!(back2.format, Some(MessageFormat::Text));
    assert_eq!(back2.value, "marked up");
}

#[test]
fn description_rejects_other_shapes() {
    assert!(Description::from_wire(&Json::Int(3)).is_err());
    assert!(Description::from_wire(&Json::Null).is_err());
    let missing_format = parse_json("{\"value\":\"x\"}").unwrap();
    assert!(Description::from_wire(&missing_format).is_err());
    let bad_tag = parse_json("{\"value\":\"x\",\"format\":\"loud\"}").unwrap();
    assert!(Description::from_wire(&bad_tag).is_err());
}

#[test]
fn consumer_with_avatar_text() {
    let consumer = HipchatApiConsumer::with_avatar(
        Avatar::new("https://example.com/a.png"),
        "bot",
        vec![Scope::AdminRoom, Scope::ViewGroup],
    );
    let text = hipchat::json::render(&consumer.to_wire());
    let expected = "{\"avatar\":{\"url\":\"https://example.com/a.png\"},\"from_name\":\"bot\",\"scopes\":[\"admin_room\",\"view_group\"]}";
    assert_eq!(text, expected);
}

#[test]
fn event_tags() {
    assert_eq!(Event::RoomArchived.tag(), "room_archived");
    assert_eq!(Event::RoomCreated.tag(), "room_created");
    assert_eq!(Event::RoomDeleted.tag(), "room_deleted");
    assert_eq!(Event::RoomEnter.tag(), "room_enter");
    assert_eq!(Event::RoomExit.tag(), "room_exit");
    assert_eq!(Event::RoomFileUpload.tag(), "room_file_upload");
    assert_eq!(Event::RoomMessage.tag(), "room_message");
    assert_eq!(Event::RoomNotification.tag(), "room_notification");
    assert_eq!(Event::RoomTopicChange.tag(), "room_topic_change");
    assert_eq!(Event::RoomUnarchived.tag(), "room_unarchived");
}

#[test]
fn scope_tags() {
    assert_eq!(Scope::AdminGroup.tag(), "admin_group");
    assert_eq!(Scope::AdminRoom.tag(), "admin_room");
    assert_eq!(Scope::ManageRooms.tag(), "manage_rooms");
    assert_eq!(Scope::SendMessage.tag(), "send_message");
    assert_eq!(Scope::SendNotification.tag(), "send_notification");
    assert_eq!(Scope::ViewGroup.tag(), "view_group");
    assert_eq!(Scope::ViewMessages.tag(), "view_messages");
    assert_eq!(Scope::ViewRoom.tag(), "view_room");
}

#[test]
fn notification_tags() {
    assert_eq!(Color::Yellow.tag(), "yellow");
    assert_eq!(Color::Purple.tag(), "purple");
    assert_eq!(Color::Gray.tag(), "gray");
    assert_eq!(Color::Random.tag(), "random");
    assert_eq!(Style::File.tag(), "file");
    assert_eq!(Style::Image.tag(), "image");
    assert_eq!(Style::Media.tag(), "media");
    assert_eq!(Format::Compact.tag(), "compact");
    assert_eq!(Format::Medium.tag(), "medium");
    assert_eq!(MessageFormat::Html.tag(), "html");
    assert_eq!(MessageFormat::Text.tag(), "text");
}
