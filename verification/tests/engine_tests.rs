use webos_client::{Command, CommandResponse, DispatchError, Engine, RouterAction};

const REGISTERED_MSG: &str = "{\"type\":\"registered\",\"payload\":{}}";

#[test]
fn commands_before_registration_all_fail_and_nothing_is_sent() {
    let mut engine = Engine::new();
    assert!(!engine.is_registered());
    for waiter in 0..3u64 {
        let r = engine.begin_command(Command::CreateToast("hello".to_string()), waiter);
        assert_eq!(r, Err(DispatchError::NotRegistered));
    }
    assert_eq!(engine.outstanding(), 0);
}

#[test]
fn registration_sets_the_flag_exactly_once() {
    let mut engine = Engine::new();
    let action = engine.handle_message(REGISTERED_MSG);
    assert_eq!(action, RouterAction::Registered);
    assert!(engine.is_registered());
    // idempotent
    let action = engine.handle_message(REGISTERED_MSG);
    assert_eq!(action, RouterAction::Registered);
    assert!(engine.is_registered());
}

#[test]
fn round_trip_resolves_the_caller_with_its_own_response() {
    let mut engine = Engine::new();
    engine.handle_message(REGISTERED_MSG);
    let (id, wire) = engine
        .begin_command(Command::CreateToast("hello".to_string()), 7)
        .unwrap();
    assert_eq!(id, 1);
    assert_eq!(
        wire,
        "{\"id\":1,\"type\":\"request\",\"uri\":\"ssap://system.notifications/createToast\",\"payload\":{\"message\":\"hello\"}}"
    );
    assert_eq!(engine.outstanding(), 1);
    let action =
        engine.handle_message("{\"type\":\"response\",\"id\":1,\"payload\":{\"returnValue\":true}}");
    assert_eq!(
        action,
        RouterAction::Resolve {
            waiter: 7,
            response: CommandResponse {
                id: 1,
                payload: Some("{\"returnValue\":true}".to_string()),
            },
        }
    );
    assert_eq!(engine.outstanding(), 0);
}

#[test]
fn early_response_is_dropped_and_the_id_is_still_usable() {
    let mut engine = Engine::new();
    let action = engine.handle_message("{\"type\":\"response\",\"id\":1,\"payload\":null}");
    assert_eq!(action, RouterAction::DropUnregistered);
    engine.handle_message(REGISTERED_MSG);
    let (id, _wire) = engine.begin_command(Command::TurnOff, 21).unwrap();
    assert_eq!(id, 1);
    let action = engine.handle_message("{\"type\":\"response\",\"id\":1,\"payload\":{}}");
    assert_eq!(
        action,
        RouterAction::Resolve {
            waiter: 21,
            response: CommandResponse { id: 1, payload: Some("{}".to_string()) },
        }
    );
}

#[test]
fn unmatched_response_is_dropped_and_later_traffic_still_flows() {
    let mut engine = Engine::new();
    engine.handle_message(REGISTERED_MSG);
    let action = engine.handle_message("{\"type\":\"response\",\"id\":9,\"payload\":null}");
    assert_eq!(action, RouterAction::DropUnmatched);
    let (id, _wire) = engine.begin_command(Command::GetVolume, 3).unwrap();
    let action = engine.handle_message(&format!(
        "{{\"type\":\"response\",\"id\":{},\"payload\":null}}",
        id
    ));
    assert_eq!(
        action,
        RouterAction::Resolve {
            waiter: 3,
            response: CommandResponse { id, payload: Some("null".to_string()) },
        }
    );
}

#[test]
fn malformed_messages_are_dropped_without_effect() {
    let mut engine = Engine::new();
    engine.handle_message(REGISTERED_MSG);
    let (id, _wire) = engine.begin_command(Command::GetVolume, 5).unwrap();
    assert_eq!(engine.handle_message("garbage"), RouterAction::DropMalformed);
    assert_eq!(engine.handle_message("{\"id\":1}"), RouterAction::DropMalformed);
    assert_eq!(engine.outstanding(), 1);
    assert!(engine.is_registered());
    let action = engine.handle_message(&format!("{{\"type\":\"response\",\"id\":{}}}", id));
    assert_eq!(
        action,
        RouterAction::Resolve {
            waiter: 5,
            response: CommandResponse { id, payload: None },
        }
    );
}

#[test]
fn a_response_is_delivered_exactly_once() {
    let mut engine = Engine::new();
    engine.handle_message(REGISTERED_MSG);
    let (id, _wire) = engine.begin_command(Command::ChannelUp, 11).unwrap();
    let msg = format!("{{\"type\":\"response\",\"id\":{},\"payload\":null}}", id);
    assert!(matches!(
        engine.handle_message(&msg),
        RouterAction::Resolve { waiter: 11, .. }
    ));
    assert_eq!(engine.handle_message(&msg), RouterAction::DropUnmatched);
}

#[test]
fn concurrent_commands_get_distinct_ids() {
    let mut engine = Engine::new();
    engine.handle_message(REGISTERED_MSG);
    let (id1, _) = engine.begin_command(Command::ChannelUp, 1).unwrap();
    let (id2, _) = engine.begin_command(Command::ChannelDown, 2).unwrap();
    let (id3, _) = engine.begin_command(Command::GetVolume, 3).unwrap();
    assert_ne!(id1, id2);
    assert_ne!(id1, id3);
    assert_ne!(id2, id3);
    assert_eq!(engine.outstanding(), 3);
}

#[test]
fn id_allocation_skips_ids_still_in_flight() {
    let mut engine = Engine::new();
    engine.handle_message(REGISTERED_MSG);
    // Exhaust the whole id range once, resolving everything but id 1.
    for waiter in 0..255u64 {
        let (id, _) = engine.begin_command(Command::TurnOff, waiter).unwrap();
        assert_eq!(id as u64, waiter + 1);
        if id != 1 {
            engine.handle_message(&format!(
                "{{\"type\":\"response\",\"id\":{},\"payload\":null}}",
                id
            ));
        }
    }
    assert_eq!(engine.outstanding(), 1);
    // The counter has wrapped; id 0 is free, id 1 is still outstanding.
    let (id, _) = engine.begin_command(Command::TurnOff, 900).unwrap();
    assert_eq!(id, 0);
    let (id, _) = engine.begin_command(Command::TurnOff, 901).unwrap();
    assert_ne!(id, 1);
    assert_eq!(id, 2);
}

#[test]
fn a_full_table_refuses_further_commands() {
    let mut engine = Engine::new();
    engine.handle_message(REGISTERED_MSG);
    for waiter in 0..256u64 {
        assert!(engine.begin_command(Command::TurnOff, waiter).is_ok());
    }
    assert_eq!(engine.outstanding(), 256);
    let r = engine.begin_command(Command::TurnOff, 1000);
    assert_eq!(r, Err(DispatchError::TableFull));
    assert_eq!(engine.outstanding(), 256);
}

#[test]
fn aborting_a_reservation_frees_its_entry() {
    let mut engine = Engine::new();
    engine.handle_message(REGISTERED_MSG);
    let (id, _wire) = engine.begin_command(Command::TurnOff, 4).unwrap();
    assert_eq!(engine.outstanding(), 1);
    engine.abort_pending(id);
    assert_eq!(engine.outstanding(), 0);
    let action = engine.handle_message(&format!("{{\"type\":\"response\",\"id\":{}}}", id));
    assert_eq!(action, RouterAction::DropUnmatched);
}

#[test]
fn connection_closed_hands_back_every_orphan() {
    let mut engine = Engine::new();
    engine.handle_message(REGISTERED_MSG);
    let (id1, _) = engine.begin_command(Command::TurnOff, 100).unwrap();
    let (id2, _) = engine.begin_command(Command::GetVolume, 200).unwrap();
    let orphans = engine.connection_closed();
    assert_eq!(orphans, vec![(id1, 100), (id2, 200)]);
    assert_eq!(engine.outstanding(), 0);
    // The registration flag survives; the table is simply empty.
    assert!(engine.is_registered());
}

#[test]
fn error_messages_are_stable() {
    assert_eq!(DispatchError::NotRegistered.message(), "Not registered");
    assert_eq!(DispatchError::TableFull.message(), "No free command id");
    assert_eq!(DispatchError::SendFailed.message(), "Could not send command");
    assert_eq!(DispatchError::ConnectionClosed.message(), "Connection closed");
}
