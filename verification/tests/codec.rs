use hipchat::json::{render, DecodeError, Json};
use hipchat::parse::parse_json;
use hipchat::request::HipchatRequest;
use hipchat::user::{UserRequest, UserResponse};

#[test]
fn parse_scalars() {
    assert!(matches!(parse_json("null"), Some(Json::Null)));
    assert!(matches!(parse_json("true"), Some(Json::Bool(true))));
    assert!(matches!(parse_json("false"), Some(Json::Bool(false))));
    assert!(matches!(parse_json("0"), Some(Json::Int(0))));
    assert!(matches!(parse_json("-123"), Some(Json::Int(-123))));
    assert!(matches!(parse_json(" 42 "), Some(Json::Int(42))));
    assert!(matches!(
        parse_json("9223372036854775807"),
        Some(Json::Int(9223372036854775807))
    ));
    assert!(matches!(
        parse_json("-9223372036854775808"),
        Some(Json::Int(-9223372036854775808))
    ));
}

#[test]
fn parse_rejects_bad_numbers() {
    assert!(parse_json("12.5").is_none());
    assert!(parse_json("1e3").is_none());
    assert!(parse_json("01").is_none());
    assert!(parse_json("9223372036854775808").is_none());
    assert!(parse_json("-9223372036854775809").is_none());
    assert!(parse_json("123456789012345678901234567890").is_none());
}

#[test]
fn parse_strings_and_escapes() {
    match parse_json("\"a\\\"b\\\\c\\n\\t\\u0041\"") {
        Some(Json::Str(s)) => assert_eq!(s, "a\"b\\c\n\tA"),
        _ => panic!("string did not parse"),
    }
    assert!(parse_json("\"unterminated").is_none());
    assert!(parse_json("\"bad\\q\"").is_none());
    assert!(parse_json("\"\\ud800\"").is_none());
}

#[test]
fn parse_arrays_and_objects() {
    match parse_json("[1, 2, 3]") {
        Some(Json::Arr(items)) => {
            assert_eq!(items.len(), 3);
            assert!(matches!(items[1], Json::Int(2)));
        },
        _ => panic!("array did not parse"),
    }
    match parse_json(" { \"a\" : 1 , \"b\" : [true] } ") {
        Some(obj) => {
            assert!(matches!(obj.get("a"), Some(Json::Int(1))));
            assert!(obj.get("c").is_none());
        },
        _ => panic!("object did not parse"),
    }
    assert!(parse_json("[1,]").is_none());
    assert!(parse_json("{\"a\":}").is_none());
    assert!(parse_json("[1] trailing").is_none());
    assert!(parse_json("").is_none());
}

#[test]
fn duplicate_keys_first_occurrence_wins() {
    let obj = parse_json("{\"a\":1,\"a\":2}").unwrap();
    assert!(matches!(obj.get("a"), Some(Json::Int(1))));
}

#[test]
fn render_parse_round_trip_samples() {
    for text in [
        "null",
        "true",
        "-42",
        "\"hi\"",
        "[1,[2,\"x\"],{}]",
        "{\"k\":\"v\",\"n\":[null,false]}",
    ] {
        let j = parse_json(text).unwrap();
        let rendered = render(&j);
        assert_eq!(rendered, text.replace(' ', ""));
        let again = parse_json(&rendered).unwrap();
        assert_eq!(render(&again), rendered);
    }
}

#[test]
fn user_request_add_encodes_name_and_email_only() {
    let add = UserRequest::Add {
        name: String::from("Alice"),
        roles: None,
        title: None,
        mention_name: None,
        is_group_admin: None,
        timezone: None,
        password: None,
        email: String::from("alice@example.com"),
    };
    let text = add.to_json();
    assert_eq!(text, "{\"name\":\"Alice\",\"email\":\"alice@example.com\"}");
    assert!(!text.contains("id_or_email"));
}

#[test]
fn user_request_add_with_options() {
    let add = UserRequest::Add {
        name: String::from("Alice"),
        roles: Some(vec![String::from("user"), String::from("admin")]),
        title: Some(String::from("Ms")),
        mention_name: None,
        is_group_admin: Some(true),
        timezone: None,
        password: None,
        email: String::from("alice@example.com"),
    };
    let expected = "{\"name\":\"Alice\",\"roles\":[\"user\",\"admin\"],\"title\":\"Ms\",\"is_group_admin\":true,\"email\":\"alice@example.com\"}";
    assert_eq!(add.to_json(), expected);
}

#[test]
fn user_request_invite_and_delete() {
    let invite = UserRequest::Invite {
        title: None,
        email: String::from("bob@example.com"),
        name: String::from("Bob"),
    };
    assert_eq!(invite.to_json(), "{\"email\":\"bob@example.com\",\"name\":\"Bob\"}");

    let delete = UserRequest::Delete { id_or_email: String::from("bob@example.com") };
    assert_eq!(delete.to_json(), "{\"id_or_email\":\"bob@example.com\"}");
}

#[test]
fn user_response_error_decodes() {
    let text = "{\"error\":{\"code\":400,\"message\":\"no such user\",\"type\":\"Bad Request\"}}";
    match UserResponse::from_json(text) {
        Ok(UserResponse::Error { error }) => {
            assert_eq!(error.code, 400);
            assert_eq!(error.message, "no such user");
            assert_eq!(error.error_type, "Bad Request");
        },
        _ => panic!("error response did not decode"),
    }
}

#[test]
fn user_response_created_decodes() {
    let text = "{\"xmpp_jid\":\"1_1@chat.example.com\",\"is_deleted\":false,\"name\":\"Alice\",\"last_active\":null,\"title\":\"Ms\",\"presence\":{\"is_online\":true},\"created\":\"2024-01-01T00:00:00Z\",\"id\":7,\"mention_name\":\"alice\",\"version\":\"1\",\"roles\":[\"user\"],\"is_group_admin\":false,\"timezone\":\"UTC\",\"is_guest\":false,\"email\":\"alice@example.com\"}";
    match UserResponse::from_json(text) {
        Ok(UserResponse::Created { name, id, roles, presence, email, photo_url, .. }) => {
            assert_eq!(name, "Alice");
            assert_eq!(id, 7);
            assert_eq!(roles, vec![String::from("user")]);
            assert_eq!(email.as_deref(), Some("alice@example.com"));
            assert!(photo_url.is_none());
            let p = presence.expect("presence present");
            assert!(p.is_online);
            assert!(p.idle.is_none());
        },
        _ => panic!("created response did not decode"),
    }
}

#[test]
fn user_response_missing_field_is_shape_error() {
    let text = "{\"xmpp_jid\":\"1_1@chat.example.com\"}";
    match UserResponse::from_json(text) {
        Err(DecodeError::Shape(_)) => {},
        _ => panic!("expected a shape error"),
    }
}

#[test]
fn request_room_message_scenario() {
    let text = "{\"event\":\"room_message\",\"item\":{\"message\":{\"date\":\"2024-01-01T00:00:00Z\",\"id\":\"1\",\"message\":\"hello\",\"type\":\"message\",\"from\":{\"id\":1,\"mention_name\":\"bob\",\"name\":\"Bob\",\"version\":\"1\",\"links\":{\"self\":\"https://x/1\"}}},\"room\":{\"id\":2,\"is_archived\":false,\"name\":\"general\",\"privacy\":\"public\",\"version\":\"1\",\"links\":{\"participants\":\"...\",\"self\":\"...\",\"webhooks\":\"...\"}}},\"webhook_id\":42}";
    match HipchatRequest::from_json(text) {
        Ok(HipchatRequest::RoomMessage { item, oauth_client_id, webhook_id }) => {
            assert_eq!(item.message(), "hello");
            assert_eq!(webhook_id, 42);
            assert!(oauth_client_id.is_none());
            assert_eq!(item.room.name, "general");
            assert_eq!(item.message.from.mention_name, "bob");
        },
        _ => panic!("room message did not decode"),
    }
}

#[test]
fn request_room_enter_decodes() {
    let text = "{\"event\":\"room_enter\",\"item\":{\"room\":{\"id\":2,\"is_archived\":false,\"name\":\"general\",\"privacy\":\"public\",\"version\":\"1\",\"links\":{\"participants\":\"p\",\"self\":\"s\",\"webhooks\":\"w\"}},\"sender\":{\"id\":1,\"mention_name\":\"bob\",\"name\":\"Bob\",\"version\":\"1\",\"links\":{\"self\":\"https://x/1\"}}},\"oauth_client_id\":\"cid\",\"webhook_id\":3}";
    match HipchatRequest::from_json(text) {
        Ok(HipchatRequest::RoomEnter { item, oauth_client_id, webhook_id }) => {
            assert_eq!(item.sender.name, "Bob");
            assert_eq!(item.room.id, 2);
            assert_eq!(oauth_client_id.as_deref(), Some("cid"));
            assert_eq!(webhook_id, 3);
        },
        _ => panic!("room enter did not decode"),
    }
}

#[test]
fn request_bad_inputs_are_errors() {
    assert!(matches!(HipchatRequest::from_json("not json"), Err(DecodeError::Syntax)));
    assert!(matches!(
        HipchatRequest::from_json("{\"event\":\"room_archived\",\"webhook_id\":1}"),
        Err(DecodeError::Shape(_))
    ));
    assert!(matches!(
        HipchatRequest::from_json("{\"item\":{},\"webhook_id\":1}"),
        Err(DecodeError::Shape(_))
    ));
}
