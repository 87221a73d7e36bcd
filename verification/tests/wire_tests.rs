use webos_client::commands::{create_command, Command};
use webos_client::wire::{escape_json, i8_dec, serialize_request, u8_dec};

#[test]
fn create_toast_round_trip_wire_text() {
    let req = create_command(1, Command::CreateToast("hello".to_string())).unwrap();
    let wire = serialize_request(&req);
    assert_eq!(
        wire,
        "{\"id\":1,\"type\":\"request\",\"uri\":\"ssap://system.notifications/createToast\",\"payload\":{\"message\":\"hello\"}}"
    );
}

#[test]
fn command_without_payload_serializes_null() {
    let req = create_command(2, Command::TurnOff).unwrap();
    let wire = serialize_request(&req);
    assert_eq!(
        wire,
        "{\"id\":2,\"type\":\"request\",\"uri\":\"ssap://system/turnOff\",\"payload\":null}"
    );
}

#[test]
fn mute_payload_serializes_bool() {
    let req = create_command(3, Command::SetMute(true)).unwrap();
    let wire = serialize_request(&req);
    assert_eq!(
        wire,
        "{\"id\":3,\"type\":\"request\",\"uri\":\"ssap://audio/setMute\",\"payload\":{\"mute\":true}}"
    );
    let req = create_command(4, Command::SetMute(false)).unwrap();
    let wire = serialize_request(&req);
    assert_eq!(
        wire,
        "{\"id\":4,\"type\":\"request\",\"uri\":\"ssap://audio/setMute\",\"payload\":{\"mute\":false}}"
    );
}

#[test]
fn volume_payload_serializes_signed_number() {
    let req = create_command(5, Command::SetVolume(-7)).unwrap();
    let wire = serialize_request(&req);
    assert_eq!(
        wire,
        "{\"id\":5,\"type\":\"request\",\"uri\":\"ssap://audio/setVolume\",\"payload\":{\"volume\":-7}}"
    );
}

#[test]
fn open_browser_carries_target() {
    let req = create_command(6, Command::OpenBrowser("https://example.com".to_string())).unwrap();
    let wire = serialize_request(&req);
    assert_eq!(
        wire,
        "{\"id\":6,\"type\":\"request\",\"uri\":\"ssap://system.launcher/open\",\"payload\":{\"target\":\"https://example.com\"}}"
    );
}

#[test]
fn channel_commands_share_the_open_channel_uri() {
    let set = create_command(7, Command::SetChannel("13".to_string())).unwrap();
    let open = create_command(8, Command::OpenChannel("13".to_string())).unwrap();
    assert_eq!(set.uri, "ssap://tv/openChannel");
    assert_eq!(open.uri, "ssap://tv/openChannel");
    assert_eq!(
        serialize_request(&set),
        "{\"id\":7,\"type\":\"request\",\"uri\":\"ssap://tv/openChannel\",\"payload\":{\"channelId\":\"13\"}}"
    );
}

#[test]
fn message_text_is_json_escaped() {
    assert_eq!(escape_json("plain"), "plain");
    assert_eq!(escape_json("say \"hi\""), "say \\\"hi\\\"");
    assert_eq!(escape_json("back\\slash"), "back\\\\slash");
    assert_eq!(escape_json("line\nbreak"), "line\\u000abreak");
    assert_eq!(escape_json("tab\there"), "tab\\u0009here");
    let req = create_command(9, Command::CreateToast("a\"b".to_string())).unwrap();
    assert_eq!(
        serialize_request(&req),
        "{\"id\":9,\"type\":\"request\",\"uri\":\"ssap://system.notifications/createToast\",\"payload\":{\"message\":\"a\\\"b\"}}"
    );
}

#[test]
fn decimal_rendering_is_exact() {
    assert_eq!(u8_dec(0), "0");
    assert_eq!(u8_dec(7), "7");
    assert_eq!(u8_dec(10), "10");
    assert_eq!(u8_dec(42), "42");
    assert_eq!(u8_dec(100), "100");
    assert_eq!(u8_dec(255), "255");
    assert_eq!(i8_dec(0), "0");
    assert_eq!(i8_dec(127), "127");
    assert_eq!(i8_dec(-1), "-1");
    assert_eq!(i8_dec(-128), "-128");
}
