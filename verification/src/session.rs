//! The interactive front end: what one worker decides for one client, from
//! the request for a connection to its end. The worker itself only waits,
//! reads and writes.

use vstd::prelude::*;
use crate::broadcast::{BroadcastChannel, SubscribeError, SubscriptionHandle};
use crate::config::HTTP_RETRY_AFTER_SECS;
use crate::protocol::{ColorName, MessageType, OperationMode, RgbColor};
use crate::protocol::{ServerMessageView, WsClientMessage, WsServerMessage};
use crate::types::named_command;
use crate::types::{ColorMessageView, CommandView, LedColorMessage, LedCommand};

verus! {

/// The answer to a request for an interactive connection.
#[derive(Debug, Clone, Copy, PartialEq, Eq, Structural)]
pub enum WebSocketResponse {
    /// Go on as a connection that reads this subscription.
    Upgrade(SubscriptionHandle),
    /// No subscription is free; the client may ask again later.
    ServiceUnavailable,
}

/// What a refused client is told.
#[derive(Debug, Clone, Copy, PartialEq, Eq)]
pub struct Refusal {
    pub status: u16,
    pub retry_after_secs: u64,
    pub body: &'static str,
}

/// The answer that goes with the outcome of a request for a subscription.
pub open spec fn response_for(outcome: Result<SubscriptionHandle, SubscribeError>)
    -> WebSocketResponse {
    match outcome {
        Ok(handle) => WebSocketResponse::Upgrade(handle),
        Err(_) => WebSocketResponse::ServiceUnavailable,
    }
}

/// Answers a request for an interactive connection: it asks the broadcast
/// channel for a subscription and upgrades if it got one. Where none is
/// free the client is turned away and nothing else is touched.
pub fn accept_websocket(colors: &mut BroadcastChannel<LedColorMessage>) -> (response:
    WebSocketResponse)
    requires
        old(colors).wf(),
    ensures
        final(colors).wf(),
        final(colors)@ == old(colors)@.after_subscribe(),
        response == response_for(old(colors)@.subscribe_result()),
{
    match colors.subscribe() {
        Ok(handle) => WebSocketResponse::Upgrade(handle),
        Err(_) => WebSocketResponse::ServiceUnavailable,
    }
}

/// What a client that was turned away is told: status 503, the time after
/// which to ask again, and a line of text.
pub fn service_unavailable() -> (refusal: Refusal)
    ensures
        refusal.status == 503,
        refusal.retry_after_secs == HTTP_RETRY_AFTER_SECS,
        refusal.body@ == "Service Unavailable: Too many WebSocket connections (max 10)"@,
{
    Refusal {
        status: 503,
        retry_after_secs: HTTP_RETRY_AFTER_SECS,
        body: "Service Unavailable: Too many WebSocket connections (max 10)",
    }
}

/// Something that happened on a connection.
#[derive(Debug, Clone, Copy, PartialEq, Eq)]
pub enum WsEvent {
    /// The client sent text that was read as this message.
    Message(WsClientMessage),
    /// The client sent text that is no message.
    Malformed,
    /// The client sent bytes that are no text.
    Binary,
    /// The client asks for a sign of life.
    Ping,
    /// The client gave a sign of life.
    Pong,
    /// The client closes the connection.
    Close,
    /// The client broke the rules of the connection; the code says how.
    ProtocolError(u16),
    /// The state of the LED changed.
    Broadcast(LedColorMessage),
}

/// An event with its texts as characters.
pub enum EventView {
    Message(WsClientMessage),
    Malformed,
    Binary,
    Ping,
    Pong,
    Close,
    ProtocolError(u16),
    Broadcast(ColorMessageView),
}

impl View for WsEvent {
    type V = EventView;

    open spec fn view(&self) -> EventView {
        match *self {
            WsEvent::Message(msg) => EventView::Message(msg),
            WsEvent::Malformed => EventView::Malformed,
            WsEvent::Binary => EventView::Binary,
            WsEvent::Ping => EventView::Ping,
            WsEvent::Pong => EventView::Pong,
            WsEvent::Close => EventView::Close,
            WsEvent::ProtocolError(code) => EventView::ProtocolError(code),
            WsEvent::Broadcast(msg) => EventView::Broadcast(msg@),
        }
    }
}

/// What is wrong with a message that was read but cannot be followed.
#[derive(Debug, Clone, Copy, PartialEq, Eq, Structural)]
pub enum ClientFault {
    /// It asks for a colour and names none.
    MissingColor,
    /// It asks for a mode and names none.
    MissingMode,
    /// It asks for the colour without a name.
    UnknownColor,
}

impl ClientFault {
    /// The words that the client is told.
    pub open spec fn words(self) -> Seq<char> {
        match self {
            ClientFault::MissingColor => "Missing color"@,
            ClientFault::MissingMode => "Missing mode"@,
            ClientFault::UnknownColor => "Unknown color"@,
        }
    }

    /// The words that the client is told.
    pub fn describe(&self) -> (words: &'static str)
        ensures
            words@ == self.words(),
    {
        match self {
            ClientFault::MissingColor => "Missing color",
            ClientFault::MissingMode => "Missing mode",
            ClientFault::UnknownColor => "Unknown color",
        }
    }
}

/// Why a connection is closed by the device.
#[derive(Debug, Clone, Copy, PartialEq, Eq)]
pub struct CloseReason {
    pub code: u16,
    pub text: &'static str,
}

/// What the worker is to do next.
#[derive(Debug, Clone, Copy, PartialEq, Eq)]
pub enum WsAction {
    /// Nothing; go on waiting.
    Continue,
    /// Put the command on the command channel, waiting for room if need be.
    SendCommand(LedCommand),
    /// Send the message to the client. A failure to send does not end the
    /// connection.
    SendMessage(WsServerMessage),
    /// Answer the ping with what it carried. A failure to send ends the
    /// connection.
    SendPong,
    /// Close the connection, with a reason if the client is at fault, and
    /// give the subscription back.
    Close(Option<CloseReason>),
}

/// An action with its texts as characters.
pub enum ActionView {
    Continue,
    SendCommand(CommandView),
    SendMessage(ServerMessageView),
    SendPong,
    Close(Option<(u16, Seq<char>)>),
}

impl View for WsAction {
    type V = ActionView;

    open spec fn view(&self) -> ActionView {
        match *self {
            WsAction::Continue => ActionView::Continue,
            WsAction::SendCommand(cmd) => ActionView::SendCommand(cmd@),
            WsAction::SendMessage(msg) => ActionView::SendMessage(msg@),
            WsAction::SendPong => ActionView::SendPong,
            WsAction::Close(reason) => ActionView::Close(
                match reason {
                    Some(r) => Some((r.code, r.text@)),
                    None => None,
                },
            ),
        }
    }
}

/// What a client message asks for. A message that names one of the three
/// colours asks for that colour at the default brightness; one that asks
/// for automatic mode asks for the return to rotation; one that asks for
/// manual mode asks for nothing, since only a colour ends the rotation. A
/// message that lacks the member that goes with its kind, or names the
/// colour without a name, is at fault.
pub open spec fn request_of(msg: WsClientMessage) -> Result<Option<CommandView>, ClientFault> {
    match msg.msg_type {
        MessageType::SetColor => match msg.color {
            Some(color) => match named_command(color.label(), LedCommand::DEFAULT_BRIGHTNESS) {
                Some(cmd) => Ok(Some(cmd)),
                None => Err(ClientFault::UnknownColor),
            },
            None => Err(ClientFault::MissingColor),
        },
        MessageType::SetMode => match msg.mode {
            Some(OperationMode::Auto) => Ok(Some(CommandView::EnableAuto)),
            Some(OperationMode::Manual) => Ok(None),
            None => Err(ClientFault::MissingMode),
        },
    }
}

/// What a request that was worked out is as a view.
pub open spec fn request_view(request: Result<Option<LedCommand>, ClientFault>) -> Result<
    Option<CommandView>,
    ClientFault,
> {
    match request {
        Ok(Some(cmd)) => Ok(Some(cmd@)),
        Ok(None) => Ok(None),
        Err(fault) => Err(fault),
    }
}

/// The status message for a state: the name of its colour, the colour by
/// channels, the time, and the mode. Every state has one; a colour that is
/// none of the three goes under the name for such colours.
pub open spec fn status_for(msg: ColorMessageView, mode: OperationMode, timestamp_ms: u64)
    -> ServerMessageView {
    ServerMessageView::Status {
        color: ColorName::named(msg.name),
        rgb: RgbColor { r: msg.color.r, g: msg.color.g, b: msg.color.b },
        timestamp_ms,
        mode,
    }
}

/// What is done about an event at the time `now_ms`. Text that is no
/// message, and a message that is at fault, are answered with an error;
/// every change of state is passed on.
pub open spec fn reaction(event: EventView, now_ms: u64) -> ActionView {
    match event {
        EventView::Message(msg) => match request_of(msg) {
            Ok(Some(cmd)) => ActionView::SendCommand(cmd),
            Ok(None) => ActionView::Continue,
            Err(fault) => ActionView::SendMessage(
                ServerMessageView::Error { message: fault.words() },
            ),
        },
        EventView::Malformed => ActionView::SendMessage(
            ServerMessageView::Error { message: "JSON parse error"@ },
        ),
        EventView::Binary => ActionView::Continue,
        EventView::Ping => ActionView::SendPong,
        EventView::Pong => ActionView::Continue,
        EventView::Close => ActionView::Close(None),
        EventView::ProtocolError(code) => ActionView::Close(Some((code, "WebSocket Error"@))),
        EventView::Broadcast(msg) => ActionView::SendMessage(
            status_for(msg, OperationMode::of_auto(msg.is_auto_mode), now_ms),
        ),
    }
}

/// Works out what a client message asks for, or what is wrong with it.
pub fn client_command(msg: &WsClientMessage) -> (request: Result<Option<LedCommand>, ClientFault>)
    ensures
        request_view(request) == request_of(*msg),
{
    match msg.msg_type {
        MessageType::SetColor => match msg.color {
            Some(color) => match LedCommand::try_from(color.as_str()) {
                Ok(cmd) => Ok(Some(cmd)),
                Err(_) => Err(ClientFault::UnknownColor),
            },
            None => Err(ClientFault::MissingColor),
        },
        MessageType::SetMode => match msg.mode {
            Some(OperationMode::Auto) => Ok(Some(LedCommand::EnableAuto)),
            Some(OperationMode::Manual) => Ok(None),
            None => Err(ClientFault::MissingMode),
        },
    }
}

/// The status message that tells a client of a state of the LED.
pub fn status_update(led_msg: &LedColorMessage, mode: OperationMode, timestamp_ms: u64) -> (status:
    WsServerMessage)
    ensures
        status@ == status_for(led_msg@, mode, timestamp_ms),
{
    let rgb = RgbColor { r: led_msg.color.r, g: led_msg.color.g, b: led_msg.color.b };
    let color = ColorName::from_name(led_msg.name);
    WsServerMessage::Status { color, rgb, timestamp_ms, mode }
}

/// Decides what to do about one event on an open connection. A message
/// that asks for something gives a command for the state owner; text that
/// is no message, and a message that cannot be followed, are answered with
/// an error and the connection stays open. Every change of state is passed
/// on as a status message.
pub fn handle_event(event: &WsEvent, now_ms: u64) -> (action: WsAction)
    ensures
        action@ == reaction(event@, now_ms),
{
    match event {
        WsEvent::Message(msg) => match client_command(msg) {
            Ok(Some(cmd)) => WsAction::SendCommand(cmd),
            Ok(None) => WsAction::Continue,
            Err(fault) => WsAction::SendMessage(
                WsServerMessage::Error { message: fault.describe() },
            ),
        },
        WsEvent::Malformed => WsAction::SendMessage(
            WsServerMessage::Error { message: "JSON parse error" },
        ),
        WsEvent::Binary => WsAction::Continue,
        WsEvent::Ping => WsAction::SendPong,
        WsEvent::Pong => WsAction::Continue,
        WsEvent::Close => WsAction::Close(None),
        WsEvent::ProtocolError(code) => WsAction::Close(
            Some(CloseReason { code: *code, text: "WebSocket Error" }),
        ),
        WsEvent::Broadcast(led_msg) => {
            let mode = OperationMode::from_auto(led_msg.is_auto_mode);
            WsAction::SendMessage(status_update(led_msg, mode, now_ms))
        },
    }
}

/// The event that a connection starts with: the oldest state that waits in
/// its subscription, taken from it, if one waits.
pub open spec fn greeting_event(pending: Seq<LedColorMessage>) -> Option<ColorMessageView> {
    if pending.len() > 0 {
        Some(pending[0]@)
    } else {
        None
    }
}

/// Starts a connection: if a state waits in the subscription it is taken
/// and passed on at once, so that a new client need not wait for the next
/// change. It never waits itself.
pub fn session_greeting(
    colors: &mut BroadcastChannel<LedColorMessage>,
    handle: SubscriptionHandle,
    now_ms: u64,
) -> (action: WsAction)
    requires
        old(colors).wf(),
    ensures
        final(colors).wf(),
        final(colors)@ == old(colors)@.after_take(handle),
        action@ == match greeting_event(old(colors)@.pending(handle)) {
            Some(msg) => reaction(EventView::Broadcast(msg), now_ms),
            None => ActionView::Continue,
        },
{
    match colors.try_next(handle) {
        Some(led_msg) => handle_event(&WsEvent::Broadcast(led_msg), now_ms),
        None => WsAction::Continue,
    }
}

/// Ends a connection: its subscription is given back.
pub fn end_session(colors: &mut BroadcastChannel<LedColorMessage>, handle: SubscriptionHandle)
    requires
        old(colors).wf(),
    ensures
        final(colors).wf(),
        final(colors)@ == old(colors)@.without_subscription(handle),
{
    colors.unsubscribe(handle);
}

/// The two sides that an open connection waits for.
#[derive(Debug, Clone, Copy, PartialEq, Eq, Structural)]
pub enum WaitSide {
    /// A message from the client.
    Client,
    /// A change of state.
    Broadcast,
}

/// The side that is served in a wait: of two sides that are ready, the one
/// that was not served last, and the client where none was served yet; of
/// one side that is ready, that one; none while neither is ready.
pub open spec fn served(client_ready: bool, broadcast_ready: bool, last: Option<WaitSide>)
    -> Option<WaitSide> {
    if client_ready && broadcast_ready {
        if last == Some(WaitSide::Client) {
            Some(WaitSide::Broadcast)
        } else {
            Some(WaitSide::Client)
        }
    } else if client_ready {
        Some(WaitSide::Client)
    } else if broadcast_ready {
        Some(WaitSide::Broadcast)
    } else {
        None
    }
}

/// Picks the side to serve in a wait, so that neither side can keep the
/// other waiting: where both are ready, the one that was not served last
/// goes first.
pub fn next_served(client_ready: bool, broadcast_ready: bool, last: Option<WaitSide>) -> (side:
    Option<WaitSide>)
    ensures
        side == served(client_ready, broadcast_ready, last),
{
    if client_ready && broadcast_ready {
        match last {
            Some(WaitSide::Client) => Some(WaitSide::Broadcast),
            _ => Some(WaitSide::Client),
        }
    } else if client_ready {
        Some(WaitSide::Client)
    } else if broadcast_ready {
        Some(WaitSide::Broadcast)
    } else {
        None
    }
}

/// Neither side starves. A side that is ready is served in this wait or,
/// if it is still ready then, in the next: the other side is never served
/// twice running while it waits. And a wait in which a side is ready does
/// not end without serving one.
pub proof fn lemma_wait_is_fair(
    side: WaitSide,
    client_ready: bool,
    broadcast_ready: bool,
    client_ready_next: bool,
    broadcast_ready_next: bool,
    last: Option<WaitSide>,
)
    requires
        side == WaitSide::Client ==> client_ready && client_ready_next,
        side == WaitSide::Broadcast ==> broadcast_ready && broadcast_ready_next,
    ensures
        served(client_ready, broadcast_ready, last) is Some,
        served(client_ready, broadcast_ready, last) == Some(side) || served(
            client_ready_next,
            broadcast_ready_next,
            served(client_ready, broadcast_ready, last),
        ) == Some(side),
{
}

impl WsAction {
    /// Whether the connection is over once this is done.
    pub fn ends_session(&self) -> (over: bool)
        ensures
            over == (self@ is Close),
    {
        match self {
            WsAction::Close(_) => true,
            _ => false,
        }
    }

    /// Whether the connection is over if this could not be sent: a pong
    /// that fails ends it, a message that fails does not.
    pub fn failure_ends_session(&self) -> (over: bool)
        ensures
            over == (self@ is SendPong || self@ is Close),
    {
        match self {
            WsAction::SendPong => true,
            WsAction::Close(_) => true,
            _ => false,
        }
    }
}

/// A message that names one of the three colours always gives a command,
/// and the command sets a colour that carries the name asked for; a
/// message that asks for automatic mode gives the command to rotate. A
/// message without the member of its kind is at fault, as is one that names
/// the colour without a name.
pub proof fn lemma_what_messages_ask_for(msg: WsClientMessage)
    ensures
        msg.msg_type == MessageType::SetColor && msg.color is Some && msg.color
            != Some(ColorName::Unknown) ==> (request_of(msg) matches Ok(
            Some(CommandView::SetColor { target_color, name }),
        ) && name == msg.color->0.label() && crate::types::color_label(target_color) == name),
        msg.msg_type == MessageType::SetColor && msg.color == Some(ColorName::Unknown)
            ==> request_of(msg) == Err::<Option<CommandView>, ClientFault>(
            ClientFault::UnknownColor,
        ),
        msg.msg_type == MessageType::SetColor && msg.color is None ==> request_of(msg) == Err::<
            Option<CommandView>,
            ClientFault,
        >(ClientFault::MissingColor),
        msg.msg_type == MessageType::SetMode && msg.mode is None ==> request_of(msg) == Err::<
            Option<CommandView>,
            ClientFault,
        >(ClientFault::MissingMode),
        msg.msg_type == MessageType::SetMode && msg.mode == Some(OperationMode::Auto)
            ==> request_of(msg) == Ok::<Option<CommandView>, ClientFault>(
            Some(CommandView::EnableAuto),
        ),
{
    if msg.msg_type == MessageType::SetColor && msg.color is Some {
        let color = msg.color->0;
        color.lemma_label_names_back();
        crate::types::lemma_named_command_keeps_name(color.label(), LedCommand::DEFAULT_BRIGHTNESS);
        reveal_strlit("Rot");
        reveal_strlit("Grün");
        reveal_strlit("Blau");
        reveal_strlit("Unbekannt");
        assert("Unbekannt"@.len() == 9);
    }
}

/// Every state is passed on, and as it is: the status message carries the
/// name that goes with the colour (the name for colours without one where
/// the colour is none of the three), the channels, the time, and `auto`
/// exactly while the colour rotates.
pub proof fn lemma_status_tells_the_state(color: crate::color::Rgb8, is_auto: bool, now_ms: u64)
    ensures
        status_for(
            ColorMessageView { color, name: crate::types::color_label(color), is_auto_mode: is_auto },
            OperationMode::of_auto(is_auto),
            now_ms,
        ) matches ServerMessageView::Status { color: named, rgb, timestamp_ms, mode } && {
            &&& named.label() == crate::types::color_label(color)
            &&& named == ColorName::Unknown <==> !crate::color::is_canonical(color)
            &&& rgb == (RgbColor { r: color.r, g: color.g, b: color.b })
            &&& timestamp_ms == now_ms
            &&& mode == OperationMode::of_auto(is_auto)
        },
{
    reveal_strlit("Rot");
    reveal_strlit("Grün");
    reveal_strlit("Blau");
    reveal_strlit("Unbekannt");
    assert("Unbekannt"@.len() == 9);
    assert("Grün"@[0] == 'G');
    assert("Blau"@[0] == 'B');
    assert("Rot"@.len() == 3);
}

} // verus!
