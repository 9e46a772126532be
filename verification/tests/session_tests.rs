use esp_led_steuerung::broadcast::{BroadcastChannel, SubscriptionHandle};
use esp_led_steuerung::protocol::{ColorName, MessageType, OperationMode, RgbColor};
use esp_led_steuerung::protocol::{WsClientMessage, WsServerMessage};
use esp_led_steuerung::session::{accept_websocket, client_command, end_session, handle_event};
use esp_led_steuerung::session::{next_served, service_unavailable, session_greeting};
use esp_led_steuerung::session::{status_update, WaitSide};
use esp_led_steuerung::session::{ClientFault, CloseReason, WebSocketResponse, WsAction, WsEvent};
use esp_led_steuerung::{LedColorMessage, LedCommand, Rgb8};

fn red_auto() -> LedColorMessage {
    LedColorMessage { color: Rgb8 { r: 10, g: 0, b: 0 }, name: "Rot", is_auto_mode: true }
}

#[test]
fn accept_upgrades_while_a_subscription_is_free() {
    let mut colors: BroadcastChannel<LedColorMessage> = BroadcastChannel::new(2, 2);
    assert_eq!(
        accept_websocket(&mut colors),
        WebSocketResponse::Upgrade(SubscriptionHandle { slot: 0 })
    );
    assert_eq!(
        accept_websocket(&mut colors),
        WebSocketResponse::Upgrade(SubscriptionHandle { slot: 1 })
    );
    assert_eq!(accept_websocket(&mut colors), WebSocketResponse::ServiceUnavailable);
    // The refused request took nothing from the others.
    colors.publish(red_auto());
    assert_eq!(colors.try_next(SubscriptionHandle { slot: 0 }), Some(red_auto()));
    assert_eq!(colors.try_next(SubscriptionHandle { slot: 1 }), Some(red_auto()));
}

#[test]
fn eleventh_client_is_turned_away() {
    let mut colors: BroadcastChannel<LedColorMessage> = BroadcastChannel::new(2, 10);
    for slot in 0..10 {
        assert_eq!(
            accept_websocket(&mut colors),
            WebSocketResponse::Upgrade(SubscriptionHandle { slot })
        );
    }
    assert_eq!(accept_websocket(&mut colors), WebSocketResponse::ServiceUnavailable);
    end_session(&mut colors, SubscriptionHandle { slot: 4 });
    assert_eq!(
        accept_websocket(&mut colors),
        WebSocketResponse::Upgrade(SubscriptionHandle { slot: 4 })
    );
}

#[test]
fn refusal_names_the_status_and_the_wait() {
    let refusal = service_unavailable();
    assert_eq!(refusal.status, 503);
    assert_eq!(refusal.retry_after_secs, 5);
    assert_eq!(refusal.body, "Service Unavailable: Too many WebSocket connections (max 10)");
}

#[test]
fn frames_that_are_no_text() {
    assert_eq!(handle_event(&WsEvent::Binary, 0), WsAction::Continue);
    assert_eq!(handle_event(&WsEvent::Pong, 0), WsAction::Continue);
    let pong = handle_event(&WsEvent::Ping, 0);
    assert_eq!(pong, WsAction::SendPong);
    assert!(!pong.ends_session());
    assert!(pong.failure_ends_session());
    let close = handle_event(&WsEvent::Close, 0);
    assert_eq!(close, WsAction::Close(None));
    assert!(close.ends_session());
    let error = handle_event(&WsEvent::ProtocolError(1002), 0);
    assert_eq!(error, WsAction::Close(Some(CloseReason { code: 1002, text: "WebSocket Error" })));
    assert!(error.ends_session());
}

#[test]
fn broadcast_is_passed_on_as_status() {
    let action = handle_event(&WsEvent::Broadcast(red_auto()), 42);
    assert_eq!(
        action,
        WsAction::SendMessage(WsServerMessage::Status {
            color: ColorName::Red,
            rgb: RgbColor { r: 10, g: 0, b: 0 },
            timestamp_ms: 42,
            mode: OperationMode::Auto,
        })
    );
    let blue = LedColorMessage { color: Rgb8 { r: 0, g: 0, b: 3 }, name: "Blau", is_auto_mode: false };
    assert_eq!(
        handle_event(&WsEvent::Broadcast(blue), 7),
        WsAction::SendMessage(WsServerMessage::Status {
            color: ColorName::Blue,
            rgb: RgbColor { r: 0, g: 0, b: 3 },
            timestamp_ms: 7,
            mode: OperationMode::Manual,
        })
    );
}

#[test]
fn status_update_takes_the_mode_it_is_given() {
    assert_eq!(
        status_update(&red_auto(), OperationMode::Manual, 9),
        WsServerMessage::Status {
            color: ColorName::Red,
            rgb: RgbColor { r: 10, g: 0, b: 0 },
            timestamp_ms: 9,
            mode: OperationMode::Manual,
        }
    );
}

#[test]
fn greeting_passes_on_a_state_that_waits() {
    let mut colors: BroadcastChannel<LedColorMessage> = BroadcastChannel::new(2, 2);
    let handle = colors.subscribe().unwrap();
    assert_eq!(session_greeting(&mut colors, handle, 1), WsAction::Continue);
    colors.publish(red_auto());
    assert_eq!(
        session_greeting(&mut colors, handle, 5),
        WsAction::SendMessage(WsServerMessage::Status {
            color: ColorName::Red,
            rgb: RgbColor { r: 10, g: 0, b: 0 },
            timestamp_ms: 5,
            mode: OperationMode::Auto,
        })
    );
    assert_eq!(colors.pending_len(handle), 0);
}

#[test]
fn end_of_session_frees_the_subscription() {
    let mut colors: BroadcastChannel<LedColorMessage> = BroadcastChannel::new(2, 1);
    let handle = colors.subscribe().unwrap();
    assert_eq!(accept_websocket(&mut colors), WebSocketResponse::ServiceUnavailable);
    end_session(&mut colors, handle);
    assert!(!colors.is_subscribed(handle));
    assert_eq!(accept_websocket(&mut colors), WebSocketResponse::Upgrade(handle));
}

#[test]
fn wait_serves_the_side_that_is_ready() {
    for last in [None, Some(WaitSide::Client), Some(WaitSide::Broadcast)] {
        assert_eq!(next_served(false, false, last), None);
        assert_eq!(next_served(true, false, last), Some(WaitSide::Client));
        assert_eq!(next_served(false, true, last), Some(WaitSide::Broadcast));
    }
}

#[test]
fn wait_takes_turns_when_both_sides_are_ready() {
    assert_eq!(next_served(true, true, None), Some(WaitSide::Client));
    assert_eq!(next_served(true, true, Some(WaitSide::Client)), Some(WaitSide::Broadcast));
    assert_eq!(next_served(true, true, Some(WaitSide::Broadcast)), Some(WaitSide::Client));
    let mut last = None;
    let mut served = Vec::new();
    for _ in 0..4 {
        last = next_served(true, true, last);
        served.push(last.unwrap());
    }
    assert_eq!(
        served,
        vec![WaitSide::Client, WaitSide::Broadcast, WaitSide::Client, WaitSide::Broadcast]
    );
}

fn client_message(
    msg_type: MessageType,
    color: Option<ColorName>,
    mode: Option<OperationMode>,
) -> WsClientMessage {
    WsClientMessage { msg_type, color, mode }
}

fn error(message: &'static str) -> WsAction {
    WsAction::SendMessage(WsServerMessage::Error { message })
}

#[test]
fn set_color_message_becomes_a_command() {
    let msg = client_message(MessageType::SetColor, Some(ColorName::Green), None);
    assert_eq!(
        handle_event(&WsEvent::Message(msg), 0),
        WsAction::SendCommand(LedCommand::SetColor {
            target_color: Rgb8 { r: 0, g: 10, b: 0 },
            name: "Grün"
        })
    );
}

#[test]
fn set_mode_auto_message_becomes_enable_auto() {
    let msg = client_message(MessageType::SetMode, None, Some(OperationMode::Auto));
    assert_eq!(handle_event(&WsEvent::Message(msg), 0), WsAction::SendCommand(LedCommand::EnableAuto));
}

#[test]
fn set_mode_manual_message_asks_for_nothing() {
    let msg = client_message(MessageType::SetMode, None, Some(OperationMode::Manual));
    assert_eq!(handle_event(&WsEvent::Message(msg), 0), WsAction::Continue);
}

#[test]
fn message_without_its_member_is_answered_with_an_error() {
    let bare = client_message(MessageType::SetColor, None, None);
    let action = handle_event(&WsEvent::Message(bare), 0);
    assert_eq!(action, error("Missing color"));
    assert!(!action.ends_session());
    assert!(!action.failure_ends_session());

    let wrong_member = client_message(MessageType::SetColor, None, Some(OperationMode::Auto));
    assert_eq!(handle_event(&WsEvent::Message(wrong_member), 0), error("Missing color"));

    let bare = client_message(MessageType::SetMode, None, None);
    assert_eq!(handle_event(&WsEvent::Message(bare), 0), error("Missing mode"));

    let wrong_member = client_message(MessageType::SetMode, Some(ColorName::Red), None);
    assert_eq!(handle_event(&WsEvent::Message(wrong_member), 0), error("Missing mode"));
}

#[test]
fn message_for_the_colour_without_a_name_is_answered_with_an_error() {
    let msg = client_message(MessageType::SetColor, Some(ColorName::Unknown), None);
    assert_eq!(handle_event(&WsEvent::Message(msg), 0), error("Unknown color"));
}

#[test]
fn malformed_text_is_answered_with_an_error() {
    let action = handle_event(&WsEvent::Malformed, 0);
    assert_eq!(action, error("JSON parse error"));
    assert!(!action.ends_session());
    assert!(!action.failure_ends_session());
}

#[test]
fn broadcast_of_an_unnamed_colour_is_passed_on_as_unknown() {
    let odd = LedColorMessage::from_color(Rgb8 { r: 10, g: 10, b: 10 }, true);
    assert_eq!(odd.name, "Unbekannt");
    let expected = WsServerMessage::Status {
        color: ColorName::Unknown,
        rgb: RgbColor { r: 10, g: 10, b: 10 },
        timestamp_ms: 42,
        mode: OperationMode::Auto,
    };
    assert_eq!(handle_event(&WsEvent::Broadcast(odd), 42), WsAction::SendMessage(expected));
    assert_eq!(status_update(&odd, OperationMode::Auto, 42), expected);
}

#[test]
fn client_command_for_every_kind_of_message() {
    assert_eq!(
        client_command(&client_message(MessageType::SetColor, Some(ColorName::Red), None)),
        Ok(Some(LedCommand::SetColor { target_color: Rgb8 { r: 10, g: 0, b: 0 }, name: "Rot" }))
    );
    assert_eq!(
        client_command(&client_message(
            MessageType::SetColor,
            Some(ColorName::Blue),
            Some(OperationMode::Auto)
        )),
        Ok(Some(LedCommand::SetColor { target_color: Rgb8 { r: 0, g: 0, b: 10 }, name: "Blau" }))
    );
    assert_eq!(
        client_command(&client_message(MessageType::SetColor, None, Some(OperationMode::Auto))),
        Err(ClientFault::MissingColor)
    );
    assert_eq!(
        client_command(&client_message(MessageType::SetColor, Some(ColorName::Unknown), None)),
        Err(ClientFault::UnknownColor)
    );
    assert_eq!(
        client_command(&client_message(MessageType::SetMode, None, Some(OperationMode::Auto))),
        Ok(Some(LedCommand::EnableAuto))
    );
    assert_eq!(
        client_command(&client_message(MessageType::SetMode, None, Some(OperationMode::Manual))),
        Ok(None)
    );
    assert_eq!(
        client_command(&client_message(MessageType::SetMode, Some(ColorName::Red), None)),
        Err(ClientFault::MissingMode)
    );
}

#[test]
fn faults_have_words_for_the_client() {
    assert_eq!(ClientFault::MissingColor.describe(), "Missing color");
    assert_eq!(ClientFault::MissingMode.describe(), "Missing mode");
    assert_eq!(ClientFault::UnknownColor.describe(), "Unknown color");
}

#[test]
fn color_name_and_mode_helpers() {
    assert_eq!(ColorName::Red.as_str(), "Rot");
    assert_eq!(ColorName::Green.as_str(), "Grün");
    assert_eq!(ColorName::Blue.as_str(), "Blau");
    assert_eq!(ColorName::Unknown.as_str(), "Unbekannt");
    assert_eq!(ColorName::from_name("Rot"), ColorName::Red);
    assert_eq!(ColorName::from_name("Grün"), ColorName::Green);
    assert_eq!(ColorName::from_name("Blau"), ColorName::Blue);
    assert_eq!(ColorName::from_name("Unbekannt"), ColorName::Unknown);
    assert_eq!(ColorName::from_name("Gelb"), ColorName::Unknown);
    assert_eq!(ColorName::from_name(""), ColorName::Unknown);
    assert_eq!(OperationMode::from_auto(true), OperationMode::Auto);
    assert_eq!(OperationMode::from_auto(false), OperationMode::Manual);
    assert!(OperationMode::Auto.is_auto());
    assert!(!OperationMode::Manual.is_auto());
}
