use htmxchat::codec::{decode, encode, input_box, Body, ChatEvent, Fragment};
use htmxchat::identity::{derive_color, ClientAddr, IpAddress};

fn x() -> ClientAddr {
    ClientAddr { ip: IpAddress::V4([192, 168, 1, 7]), port: 50123 }
}

#[test]
fn decode_trims_message() {
    assert_eq!(decode(r#"{"msg": "  hello  "}"#), Some("hello".to_string()));
    assert_eq!(decode("{\"msg\": \"\\t hi there\\n\"}"), Some("hi there".to_string()));
}

#[test]
fn decode_drops_blank_message() {
    assert_eq!(decode(r#"{"msg": "   "}"#), None);
    assert_eq!(decode(r#"{"msg": ""}"#), None);
    assert_eq!(decode("{\"msg\": \"\\u00a0\\u3000\"}"), None);
}

#[test]
fn decode_drops_missing_or_non_string_field() {
    assert_eq!(decode(r#"{"text": "hello"}"#), None);
    assert_eq!(decode(r#"{"msg": 5}"#), None);
    assert_eq!(decode(r#"{"msg": null}"#), None);
    assert_eq!(decode(r#"{"msg": ["a"]}"#), None);
    assert_eq!(decode(r#""hello""#), None);
}

#[test]
fn decode_drops_malformed_payload() {
    assert_eq!(decode("not json"), None);
    assert_eq!(decode(r#"{"msg": "hello""#), None);
    assert_eq!(decode(""), None);
}

#[test]
fn decode_ignores_other_fields() {
    assert_eq!(decode(r#"{"HEADERS": {"HX-Request": "true"}, "msg": "yo"}"#), Some("yo".to_string()));
}

#[test]
fn encode_message_line() {
    let e = ChatEvent::new(x(), Body::Text("hi".to_string()));
    assert_eq!(
        encode(&e),
        Fragment::MessageLine { sender: x(), color: derive_color(&x()), text: "hi".to_string() }
    );
}

#[test]
fn encode_lifecycle_markers() {
    let joined = encode(&ChatEvent::new(x(), Body::Joined));
    let left = encode(&ChatEvent::new(x(), Body::Left));
    assert!(matches!(joined, Fragment::MessageLine { ref text, .. } if text == "<JOINED>"));
    assert!(matches!(left, Fragment::MessageLine { ref text, .. } if text == "<LEFT>"));
}

#[test]
fn encode_is_deterministic() {
    let e = ChatEvent::new(x(), Body::Text("same".to_string()));
    assert_eq!(encode(&e), encode(&e));
}

#[test]
fn input_box_names_its_owner() {
    assert_eq!(input_box(&x()), Fragment::InputBox { owner: x(), color: derive_color(&x()) });
}
