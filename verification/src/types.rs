//! What travels on the two channels: state changes out, commands in.

use vstd::prelude::*;
use crate::color::Rgb8;
use crate::config::LED_BRIGHTNESS;
use crate::text::str_eq;

verus! {

/// The state of the LED as every subscriber receives it.
#[derive(Debug, Clone, Copy, PartialEq, Eq)]
pub struct LedColorMessage {
    pub color: Rgb8,
    pub name: &'static str,
    pub is_auto_mode: bool,
}

/// A state message with its name as characters.
pub struct ColorMessageView {
    pub color: Rgb8,
    pub name: Seq<char>,
    pub is_auto_mode: bool,
}

impl View for LedColorMessage {
    type V = ColorMessageView;

    open spec fn view(&self) -> ColorMessageView {
        ColorMessageView { color: self.color, name: self.name@, is_auto_mode: self.is_auto_mode }
    }
}

/// The name that goes with a colour: one of the three German names where
/// exactly one channel is lit, "Unbekannt" for every other colour.
pub open spec fn color_label(color: Rgb8) -> Seq<char> {
    if color.r > 0 && color.g == 0 && color.b == 0 {
        "Rot"@
    } else if color.r == 0 && color.g > 0 && color.b == 0 {
        "Grün"@
    } else if color.r == 0 && color.g == 0 && color.b > 0 {
        "Blau"@
    } else {
        "Unbekannt"@
    }
}

impl LedColorMessage {
    /// The message for a colour and a mode; its name comes from the colour
    /// alone.
    pub fn from_color(color: Rgb8, is_auto_mode: bool) -> (msg: LedColorMessage)
        ensures
            msg@ == (ColorMessageView { color, name: color_label(color), is_auto_mode }),
    {
        let name = if color.r > 0 && color.g == 0 && color.b == 0 {
            "Rot"
        } else if color.r == 0 && color.g > 0 && color.b == 0 {
            "Grün"
        } else if color.r == 0 && color.g == 0 && color.b > 0 {
            "Blau"
        } else {
            "Unbekannt"
        };
        LedColorMessage { color, name, is_auto_mode }
    }
}

/// An operator's wish, on its way to the state owner.
#[derive(Debug, Clone, Copy, PartialEq, Eq)]
pub enum LedCommand {
    /// Show this colour and stop rotating.
    SetColor { target_color: Rgb8, name: &'static str },
    /// Rotate again.
    EnableAuto,
}

/// A command with its name as characters.
pub enum CommandView {
    SetColor { target_color: Rgb8, name: Seq<char> },
    EnableAuto,
}

impl View for LedCommand {
    type V = CommandView;

    open spec fn view(&self) -> CommandView {
        match *self {
            LedCommand::SetColor { target_color, name } => CommandView::SetColor {
                target_color,
                name: name@,
            },
            LedCommand::EnableAuto => CommandView::EnableAuto,
        }
    }
}

/// The command that a colour name asks for at a given brightness: the named
/// channel at that level and the others dark; none for any other text.
pub open spec fn named_command(name: Seq<char>, brightness: u8) -> Option<CommandView> {
    if name == "Rot"@ {
        Some(
            CommandView::SetColor {
                target_color: Rgb8 { r: brightness, g: 0, b: 0 },
                name: "Rot"@,
            },
        )
    } else if name == "Grün"@ {
        Some(
            CommandView::SetColor {
                target_color: Rgb8 { r: 0, g: brightness, b: 0 },
                name: "Grün"@,
            },
        )
    } else if name == "Blau"@ {
        Some(
            CommandView::SetColor {
                target_color: Rgb8 { r: 0, g: 0, b: brightness },
                name: "Blau"@,
            },
        )
    } else {
        None
    }
}

/// A command that may be there, with its name as characters.
pub open spec fn waiting_command(waiting: Option<LedCommand>) -> Option<CommandView> {
    match waiting {
        Some(cmd) => Some(cmd@),
        None => None,
    }
}

/// What a `Result` of a command is as a view: the command's view, or none.
pub open spec fn command_result_view(res: Result<LedCommand, ()>) -> Option<CommandView> {
    match res {
        Ok(cmd) => Some(cmd@),
        Err(_) => None,
    }
}

fn set_color_by_name(name: &str, brightness: u8) -> (res: Result<LedCommand, ()>)
    ensures
        command_result_view(res) == named_command(name@, brightness),
{
    if str_eq(name, "Rot") {
        Ok(LedCommand::SetColor { target_color: Rgb8 { r: brightness, g: 0, b: 0 }, name: "Rot" })
    } else if str_eq(name, "Grün") {
        Ok(LedCommand::SetColor { target_color: Rgb8 { r: 0, g: brightness, b: 0 }, name: "Grün" })
    } else if str_eq(name, "Blau") {
        Ok(LedCommand::SetColor { target_color: Rgb8 { r: 0, g: 0, b: brightness }, name: "Blau" })
    } else {
        Err(())
    }
}

impl LedCommand {
    /// Brightness of a command made without the device's settings at hand.
    pub const DEFAULT_BRIGHTNESS: u8 = 10;

    /// The command for a colour name at the default brightness; `Err` for a
    /// name that is none of the three.
    pub fn try_from(name: &str) -> (res: Result<LedCommand, ()>)
        ensures
            command_result_view(res) == named_command(name@, LedCommand::DEFAULT_BRIGHTNESS),
    {
        set_color_by_name(name, LedCommand::DEFAULT_BRIGHTNESS)
    }
}

/// The command for a colour name at the device's brightness; `Err` for a name
/// that is none of the three.
pub fn led_command_from_name(name: &str) -> (res: Result<LedCommand, ()>)
    ensures
        command_result_view(res) == named_command(name@, LED_BRIGHTNESS),
{
    set_color_by_name(name, LED_BRIGHTNESS)
}

/// A command made from a colour name sets a colour that carries that same
/// name: the two ways from a name to a colour and back agree.
pub proof fn lemma_named_command_keeps_name(name: Seq<char>, brightness: u8)
    requires
        brightness > 0,
    ensures
        match named_command(name, brightness) {
            Some(CommandView::SetColor { target_color, name: given }) => given == name
                && color_label(target_color) == name,
            Some(CommandView::EnableAuto) => false,
            None => name != "Rot"@ && name != "Grün"@ && name != "Blau"@,
        },
{
    reveal_strlit("Rot");
    reveal_strlit("Grün");
    reveal_strlit("Blau");
    assert("Grün"@[0] == 'G');
    assert("Blau"@[0] == 'B');
    assert("Rot"@[0] == 'R');
}

} // verus!
