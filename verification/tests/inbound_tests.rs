use webos_client::inbound::parse_inbound;
use webos_client::InboundEvent;

#[test]
fn registration_acknowledgment_is_recognized() {
    let ev = parse_inbound("{\"type\":\"registered\",\"id\":\"register_0\",\"payload\":{}}");
    assert_eq!(ev, InboundEvent::Registered);
}

#[test]
fn response_fields_are_extracted() {
    let ev = parse_inbound("{\"type\":\"response\",\"id\":1,\"payload\":{\"returnValue\":true}}");
    assert_eq!(
        ev,
        InboundEvent::Response {
            id: 1,
            payload: Some("{\"returnValue\":true}".to_string()),
        }
    );
}

#[test]
fn response_without_payload_has_none() {
    let ev = parse_inbound("{\"type\":\"response\",\"id\":200}");
    assert_eq!(ev, InboundEvent::Response { id: 200, payload: None });
}

#[test]
fn unknown_type_with_id_is_still_correlated() {
    let ev = parse_inbound("{\"type\":\"whatever\",\"id\":9,\"payload\":null}");
    assert_eq!(
        ev,
        InboundEvent::Response { id: 9, payload: Some("null".to_string()) }
    );
}

#[test]
fn invalid_json_is_malformed() {
    assert_eq!(parse_inbound("not json at all"), InboundEvent::Malformed);
    assert_eq!(parse_inbound(""), InboundEvent::Malformed);
    assert_eq!(parse_inbound("{\"type\":"), InboundEvent::Malformed);
}

#[test]
fn missing_or_unusable_type_is_malformed() {
    assert_eq!(parse_inbound("{\"id\":1}"), InboundEvent::Malformed);
    assert_eq!(parse_inbound("{\"type\":5,\"id\":1}"), InboundEvent::Malformed);
    assert_eq!(parse_inbound("[1,2,3]"), InboundEvent::Malformed);
}

#[test]
fn missing_or_out_of_range_id_is_malformed() {
    assert_eq!(parse_inbound("{\"type\":\"response\"}"), InboundEvent::Malformed);
    assert_eq!(parse_inbound("{\"type\":\"response\",\"id\":256}"), InboundEvent::Malformed);
    assert_eq!(parse_inbound("{\"type\":\"response\",\"id\":-1}"), InboundEvent::Malformed);
    assert_eq!(
        parse_inbound("{\"type\":\"response\",\"id\":\"one\"}"),
        InboundEvent::Malformed
    );
}
