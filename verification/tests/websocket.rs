use plate_handler::error::{BridgeError, ProtocolFault};
use plate_handler::json::{parse, Json, Member};
use plate_handler::text::{as_text, join, same_text};
use plate_handler::websocket::{
    build_auth_frame, build_subscribe_frame, dispatch, handle_event, handle_result, handle_websocket_message,
    process_websocket_message, Completion, Frame, Handled, NameUpdate, Reaction, RpcConnection,
};

fn call(conn: &mut RpcConnection, completion: Option<Completion>) -> String {
    conn.send(|id| (Json::object(vec![Member::new("id", Json::unsigned(id))]), completion))
}

#[test]
fn a_new_connection_starts_at_one_with_nothing_pending() {
    let conn = RpcConnection::new();
    assert_eq!(conn.next_id(), 1);
    assert_eq!(conn.pending_count(), 0);
    assert_eq!(conn.pending(1), None);
}

#[test]
fn send_issues_ids_that_count_up_from_one() {
    let mut conn = RpcConnection::new();
    assert_eq!(call(&mut conn, None), "{\"id\":1}");
    assert_eq!(call(&mut conn, Some(Completion::Notification)), "{\"id\":2}");
    assert_eq!(call(&mut conn, Some(Completion::Logbook)), "{\"id\":3}");
    assert_eq!(conn.next_id(), 4);
}

#[test]
fn send_registers_the_completion_under_the_id() {
    let mut conn = RpcConnection::new();
    call(&mut conn, None);
    call(&mut conn, Some(Completion::Notification));
    assert_eq!(conn.pending(1), None);
    assert_eq!(conn.pending(2), Some(Completion::Notification));
    assert_eq!(conn.pending_count(), 1);
}

#[test]
fn ids_stay_distinct_over_many_calls() {
    let mut conn = RpcConnection::new();
    let mut last = 0;
    for _ in 0..1000 {
        let id = conn.next_id();
        assert!(id > last);
        last = id;
        call(&mut conn, Some(Completion::Logbook));
    }
    assert_eq!(last, 1000);
    assert_eq!(conn.pending_count(), 1000);
}

#[test]
fn auth_frame_has_no_id() {
    assert_eq!(
        build_auth_frame("TOKEN"),
        Json::object(vec![
            Member::new("type", Json::text("auth")),
            Member::new("access_token", Json::text("TOKEN")),
        ])
    );
}

#[test]
fn subscribe_frame_names_the_event_type() {
    assert_eq!(
        build_subscribe_frame(9),
        Json::object(vec![
            Member::new("id", Json::unsigned(9)),
            Member::new("type", Json::text("subscribe_events")),
            Member::new("event_type", Json::text("mobile_app_notification_action")),
        ])
    );
}

#[test]
fn handshake_is_auth_then_subscribe_with_id_one() {
    let mut conn = RpcConnection::new();
    let first = handle_websocket_message(&mut conn, "{\"type\":\"auth_required\"}", Some("TOKEN"));
    assert_eq!(first, Ok(Reaction::Send("{\"access_token\":\"TOKEN\",\"type\":\"auth\"}".to_string())));
    assert_eq!(conn.next_id(), 1);
    assert_eq!(conn.pending_count(), 0);
    let second = handle_websocket_message(&mut conn, "{\"type\":\"auth_ok\"}", Some("TOKEN"));
    assert_eq!(
        second,
        Ok(Reaction::Send(
            "{\"event_type\":\"mobile_app_notification_action\",\"id\":1,\"type\":\"subscribe_events\"}"
                .to_string()
        ))
    );
    assert_eq!(conn.next_id(), 2);
    assert_eq!(conn.pending(1), Some(Completion::Subscribe));
}

#[test]
fn auth_required_without_a_token_is_a_config_error() {
    let mut conn = RpcConnection::new();
    let r = handle_websocket_message(&mut conn, "{\"type\":\"auth_required\"}", None);
    assert_eq!(r, Err(BridgeError::Config));
    assert_eq!(conn.next_id(), 1);
}

#[test]
fn a_result_completes_its_call_once() {
    let mut conn = RpcConnection::new();
    call(&mut conn, Some(Completion::Subscribe));
    call(&mut conn, Some(Completion::Notification));
    let text = "{\"id\":1,\"type\":\"result\",\"success\":true,\"result\":{\"context\":7}}";
    let r = handle_websocket_message(&mut conn, text, None);
    assert_eq!(
        r,
        Ok(Reaction::Completed {
            completion: Completion::Subscribe,
            success: true,
            result: parse("{\"context\":7}"),
        })
    );
    assert_eq!(conn.pending(1), None);
    assert_eq!(conn.pending(2), Some(Completion::Notification));
    assert_eq!(conn.next_id(), 3);
    assert_eq!(handle_websocket_message(&mut conn, text, None), Ok(Reaction::Ignored));
}

#[test]
fn a_failed_result_reports_the_failure() {
    let mut conn = RpcConnection::new();
    call(&mut conn, Some(Completion::Logbook));
    let r = handle_websocket_message(&mut conn, "{\"id\":1,\"type\":\"result\",\"success\":false}", None);
    assert_eq!(r, Ok(Reaction::Completed { completion: Completion::Logbook, success: false, result: None }));
}

#[test]
fn a_result_for_no_pending_call_is_ignored() {
    let mut conn = RpcConnection::new();
    call(&mut conn, Some(Completion::Subscribe));
    let r = handle_websocket_message(&mut conn, "{\"id\":42,\"type\":\"result\",\"success\":true}", None);
    assert_eq!(r, Ok(Reaction::Ignored));
    assert_eq!(conn.pending(1), Some(Completion::Subscribe));
    assert_eq!(conn.pending_count(), 1);
    assert_eq!(conn.next_id(), 2);
}

#[test]
fn a_result_without_id_or_success_is_a_protocol_error() {
    let mut conn = RpcConnection::new();
    call(&mut conn, Some(Completion::Subscribe));
    let no_id = handle_websocket_message(&mut conn, "{\"type\":\"result\",\"success\":true}", None);
    assert_eq!(no_id, Err(BridgeError::Protocol(ProtocolFault::MissingId)));
    let bad_id = handle_websocket_message(&mut conn, "{\"id\":-1,\"type\":\"result\",\"success\":true}", None);
    assert_eq!(bad_id, Err(BridgeError::Protocol(ProtocolFault::MissingId)));
    let no_success = handle_websocket_message(&mut conn, "{\"id\":1,\"type\":\"result\"}", None);
    assert_eq!(no_success, Err(BridgeError::Protocol(ProtocolFault::MissingSuccess)));
    let bad_success = handle_websocket_message(&mut conn, "{\"id\":1,\"type\":\"result\",\"success\":1}", None);
    assert_eq!(bad_success, Err(BridgeError::Protocol(ProtocolFault::MissingSuccess)));
    let neither = handle_websocket_message(&mut conn, "{\"type\":\"result\"}", None);
    assert_eq!(neither, Err(BridgeError::Protocol(ProtocolFault::MissingId)));
    assert_eq!(conn.pending(1), Some(Completion::Subscribe));
    assert_eq!(conn.pending_count(), 1);
    assert_eq!(conn.next_id(), 2);
}

#[test]
fn handle_result_works_on_a_parsed_frame() {
    let mut conn = RpcConnection::new();
    call(&mut conn, Some(Completion::Notification));
    let frame = parse("{\"id\":1,\"success\":true,\"result\":null}").unwrap();
    assert_eq!(
        handle_result(&mut conn, &frame),
        Ok(Reaction::Completed {
            completion: Completion::Notification,
            success: true,
            result: Some(Json::Null),
        })
    );
}

#[test]
fn what_is_not_a_frame_is_a_protocol_error() {
    let mut conn = RpcConnection::new();
    let cases = [
        ("not json", ProtocolFault::Malformed),
        ("", ProtocolFault::Malformed),
        ("[1,2]", ProtocolFault::NotAnObject),
        ("\"auth_ok\"", ProtocolFault::NotAnObject),
        ("{}", ProtocolFault::MissingType),
        ("{\"type\":7}", ProtocolFault::MissingType),
        ("{\"type\":\"pong\"}", ProtocolFault::UnknownType),
        ("{\"type\":\"AUTH_OK\"}", ProtocolFault::UnknownType),
    ];
    for (text, fault) in cases {
        assert_eq!(handle_websocket_message(&mut conn, text, Some("T")), Err(BridgeError::Protocol(fault)));
    }
    assert_eq!(conn.next_id(), 1);
    assert_eq!(conn.pending_count(), 0);
}

#[test]
fn a_notification_reply_sets_the_name() {
    let mut conn = RpcConnection::new();
    let text = "{\"type\":\"event\",\"event\":{\"event_type\":\"mobile_app_notification_action\",\"data\":{\"action_data\":{\"plate\":\"ABC123\"},\"reply_text\":\"Alice\"}}}";
    let r = handle_websocket_message(&mut conn, text, None);
    assert_eq!(
        r,
        Ok(Reaction::SetName(NameUpdate { plate: "ABC123".to_string(), name: "Alice".to_string() }))
    );
    assert_eq!(conn.next_id(), 1);
}

#[test]
fn another_event_is_unexpected() {
    let other = parse("{\"event\":{\"event_type\":\"state_changed\",\"data\":{}}}").unwrap();
    assert_eq!(handle_event(&other), Err(BridgeError::UnexpectedEvent));
    let none = parse("{\"event\":{}}").unwrap();
    assert_eq!(handle_event(&none), Err(BridgeError::UnexpectedEvent));
    let no_event = parse("{}").unwrap();
    assert_eq!(handle_event(&no_event), Err(BridgeError::UnexpectedEvent));
}

#[test]
fn a_reply_without_plate_or_text_is_a_protocol_error() {
    let no_plate = parse("{\"event\":{\"event_type\":\"mobile_app_notification_action\",\"data\":{\"reply_text\":\"Alice\"}}}").unwrap();
    assert_eq!(handle_event(&no_plate), Err(BridgeError::Protocol(ProtocolFault::MissingPlate)));
    let no_text = parse("{\"event\":{\"event_type\":\"mobile_app_notification_action\",\"data\":{\"action_data\":{\"plate\":\"ABC123\"}}}}").unwrap();
    assert_eq!(handle_event(&no_text), Err(BridgeError::Protocol(ProtocolFault::MissingReply)));
    let no_data = parse("{\"event\":{\"event_type\":\"mobile_app_notification_action\"}}").unwrap();
    assert_eq!(handle_event(&no_data), Err(BridgeError::Protocol(ProtocolFault::MissingPlate)));
    let plate_no_text = parse("{\"event\":{\"event_type\":\"mobile_app_notification_action\",\"data\":{\"action_data\":{\"plate\":5},\"reply_text\":\"Alice\"}}}").unwrap();
    assert_eq!(handle_event(&plate_no_text), Err(BridgeError::Protocol(ProtocolFault::MissingPlate)));
}

#[test]
fn only_text_frames_reach_the_connection() {
    let mut conn = RpcConnection::new();
    assert_eq!(process_websocket_message(&mut conn, &Frame::Close, Some("T")), Handled::Closed);
    assert_eq!(process_websocket_message(&mut conn, &Frame::Other, Some("T")), Handled::Skipped);
    assert_eq!(conn.next_id(), 1);
    let text = Frame::Text("{\"type\":\"auth_ok\"}".to_string());
    match process_websocket_message(&mut conn, &text, Some("T")) {
        Handled::Message(Ok(Reaction::Send(_))) => {}
        other => panic!("unexpected {:?}", other),
    }
    assert_eq!(conn.next_id(), 2);
    let bad = Frame::Text("nonsense".to_string());
    assert_eq!(
        process_websocket_message(&mut conn, &bad, Some("T")),
        Handled::Message(Err(BridgeError::Protocol(ProtocolFault::Malformed)))
    );
}

#[test]
fn every_error_has_a_message() {
    assert_eq!(BridgeError::Config.message(), "ACCESS_TOKEN environment variable unset");
    assert_eq!(BridgeError::Transport.message(), "transport failure");
    assert_eq!(BridgeError::UnexpectedEvent.message(), "unexpected event type");
    assert_eq!(BridgeError::Storage.message(), "error updating database");
    assert_eq!(BridgeError::Protocol(ProtocolFault::MissingId).message(), "no id field in result");
    assert_eq!(BridgeError::Protocol(ProtocolFault::MissingSuccess).message(), "no success field in result");
    assert_eq!(BridgeError::Protocol(ProtocolFault::Malformed).message(), "failed to parse websocket message");
    assert_eq!(BridgeError::Protocol(ProtocolFault::NotAnObject).message(), "unexpected message JSON type");
    assert_eq!(BridgeError::Protocol(ProtocolFault::MissingType).message(), "unrecognized type for message");
    assert_eq!(BridgeError::Protocol(ProtocolFault::UnknownType).message(), "unrecognized message type");
    assert_eq!(BridgeError::Protocol(ProtocolFault::MissingPlate).message(), "missing plate field in data");
    assert_eq!(BridgeError::Protocol(ProtocolFault::MissingReply).message(), "missing text input in data");
}

#[test]
fn dispatch_works_on_a_parsed_frame() {
    let mut conn = RpcConnection::new();
    let frame = parse("{\"type\":\"auth_ok\"}").unwrap();
    match dispatch(&mut conn, &frame, None) {
        Ok(Reaction::Send(text)) => assert_eq!(
            text,
            "{\"event_type\":\"mobile_app_notification_action\",\"id\":1,\"type\":\"subscribe_events\"}"
        ),
        other => panic!("unexpected {:?}", other),
    }
    assert_eq!(
        dispatch(&mut conn, &Json::Null, None),
        Err(BridgeError::Protocol(ProtocolFault::NotAnObject))
    );
    assert_eq!(conn.next_id(), 2);
}

#[test]
fn text_helpers_compare_and_join() {
    assert!(same_text("auth_ok", "auth_ok"));
    assert!(!same_text("auth_ok", "auth_required"));
    assert!(!same_text("", "a"));
    assert_eq!(join("Spotted plate ", "ABC123"), "Spotted plate ABC123");
    assert_eq!(as_text(&Some("a".to_string())), Some("a"));
    assert_eq!(as_text(&None), None);
}
