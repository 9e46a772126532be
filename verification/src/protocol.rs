//! Messages of the interactive connection, as values.

use vstd::prelude::*;
use crate::text::str_eq;

verus! {

/// The name of a colour: one of the three that a client may ask for, or
/// the name of every colour that is none of them.
#[derive(Debug, Clone, Copy, PartialEq, Eq, Structural)]
pub enum ColorName {
    Red,
    Green,
    Blue,
    /// A colour without a name of its own.
    Unknown,
}

/// A colour as the status message carries it.
#[derive(Debug, Clone, Copy, PartialEq, Eq, Structural)]
pub struct RgbColor {
    pub r: u8,
    pub g: u8,
    pub b: u8,
}

/// What a client message asks for.
#[derive(Debug, Clone, Copy, PartialEq, Eq, Structural)]
pub enum MessageType {
    SetColor,
    SetMode,
}

/// Whether the colour rotates by itself or stays as a client set it.
#[derive(Debug, Clone, Copy, PartialEq, Eq, Structural)]
pub enum OperationMode {
    Auto,
    Manual,
}

/// A message from a client: its kind, and the member that goes with it.
#[derive(Debug, Clone, Copy, PartialEq, Eq, Structural)]
pub struct WsClientMessage {
    pub msg_type: MessageType,
    pub color: Option<ColorName>,
    pub mode: Option<OperationMode>,
}

/// A message to a client: the state of the LED, or a complaint.
#[derive(Debug, Clone, Copy, PartialEq, Eq)]
pub enum WsServerMessage {
    Status { color: ColorName, rgb: RgbColor, timestamp_ms: u64, mode: OperationMode },
    Error { message: &'static str },
}

/// A message to a client with its text as characters.
pub enum ServerMessageView {
    Status { color: ColorName, rgb: RgbColor, timestamp_ms: u64, mode: OperationMode },
    Error { message: Seq<char> },
}

impl View for WsServerMessage {
    type V = ServerMessageView;

    open spec fn view(&self) -> ServerMessageView {
        match *self {
            WsServerMessage::Status { color, rgb, timestamp_ms, mode } => ServerMessageView::Status {
                color,
                rgb,
                timestamp_ms,
                mode,
            },
            WsServerMessage::Error { message } => ServerMessageView::Error { message: message@ },
        }
    }
}

/// What a server message that may be there is as a view.
pub open spec fn optional_message(msg: Option<WsServerMessage>) -> Option<ServerMessageView> {
    match msg {
        Some(m) => Some(m@),
        None => None,
    }
}

impl ColorName {
    /// The German name of the colour, as characters.
    pub open spec fn label(self) -> Seq<char> {
        match self {
            ColorName::Red => "Rot"@,
            ColorName::Green => "Grün"@,
            ColorName::Blue => "Blau"@,
            ColorName::Unknown => "Unbekannt"@,
        }
    }

    /// The colour that a name stands for: the three names stand for their
    /// colours, every other text for the colour without a name.
    pub open spec fn named(name: Seq<char>) -> ColorName {
        if name == "Rot"@ {
            ColorName::Red
        } else if name == "Grün"@ {
            ColorName::Green
        } else if name == "Blau"@ {
            ColorName::Blue
        } else {
            ColorName::Unknown
        }
    }

    /// The German name of the colour.
    pub fn as_str(self) -> (name: &'static str)
        ensures
            name@ == self.label(),
    {
        match self {
            ColorName::Red => "Rot",
            ColorName::Green => "Grün",
            ColorName::Blue => "Blau",
            ColorName::Unknown => "Unbekannt",
        }
    }

    /// Reads a German colour name; any text that is none of the three is
    /// the name of a colour without one.
    pub fn from_name(name: &str) -> (color: ColorName)
        ensures
            color == ColorName::named(name@),
    {
        if str_eq(name, "Rot") {
            ColorName::Red
        } else if str_eq(name, "Grün") {
            ColorName::Green
        } else if str_eq(name, "Blau") {
            ColorName::Blue
        } else {
            ColorName::Unknown
        }
    }

    /// The four names differ, so a name read back gives the colour it came
    /// from.
    pub proof fn lemma_label_names_back(self)
        ensures
            ColorName::named(self.label()) == self,
    {
        reveal_strlit("Rot");
        reveal_strlit("Grün");
        reveal_strlit("Blau");
        reveal_strlit("Unbekannt");
        assert("Rot"@.len() == 3);
        assert("Grün"@.len() == 4);
        assert("Blau"@.len() == 4);
        assert("Unbekannt"@.len() == 9);
        assert("Grün"@[0] == 'G');
        assert("Blau"@[0] == 'B');
    }
}

impl OperationMode {
    /// The mode that goes with the rotation being on or off.
    pub open spec fn of_auto(is_auto: bool) -> OperationMode {
        if is_auto {
            OperationMode::Auto
        } else {
            OperationMode::Manual
        }
    }

    /// `Auto` while the colour rotates by itself, `Manual` otherwise.
    pub fn from_auto(is_auto: bool) -> (mode: OperationMode)
        ensures
            mode == OperationMode::of_auto(is_auto),
    {
        if is_auto {
            OperationMode::Auto
        } else {
            OperationMode::Manual
        }
    }

    /// Whether the colour rotates by itself in this mode.
    pub fn is_auto(self) -> (auto: bool)
        ensures
            auto == (self == OperationMode::Auto),
    {
        match self {
            OperationMode::Auto => true,
            OperationMode::Manual => false,
        }
    }
}

} // verus!
