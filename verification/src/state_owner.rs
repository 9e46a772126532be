//! The state owner: the one place where the colour and the mode change. Once
//! per tick it takes the command that waits, rotates the colour while in
//! automatic mode, shows the colour, and tells every subscriber of a change.

use vstd::prelude::*;
use crate::broadcast::{BroadcastChannel, ChannelView};
use crate::color::{is_canonical, rotate_color, rotated, rotated_by, Rgb8};
use crate::color::{lemma_rotation_by_remainder, lemma_rotation_three_cycle};
use crate::config::LED_BRIGHTNESS;
use crate::led_writer::{LedError, SmartLedWriter};
use crate::mailbox::CommandChannel;
use crate::types::{color_label, waiting_command};
use crate::types::{ColorMessageView, CommandView, LedColorMessage, LedCommand};

verus! {

/// The colour shown and whether it rotates by itself.
#[derive(Debug, Clone, Copy, PartialEq, Eq, Structural)]
pub struct LedState {
    pub color: Rgb8,
    pub auto_rotate: bool,
}

/// What one tick did.
#[derive(Debug, Clone, Copy, PartialEq, Eq)]
pub struct TickReport {
    /// The colour that was handed to the LED.
    pub color: Rgb8,
    /// The message that went to the subscribers, if the state changed.
    pub published: Option<LedColorMessage>,
    /// Whether the LED refused the colour.
    pub write_failed: bool,
}

impl LedState {
    /// The state after a command alone: a colour to set is taken and turns
    /// the rotation off; the wish to rotate turns it on and leaves the colour.
    pub open spec fn after_command(self, cmd: Option<CommandView>) -> LedState {
        match cmd {
            Some(CommandView::SetColor { target_color, name }) => LedState {
                color: target_color,
                auto_rotate: false,
            },
            Some(CommandView::EnableAuto) => LedState { color: self.color, auto_rotate: true },
            None => self,
        }
    }

    /// The state after one tick that found `cmd` waiting: the command first,
    /// then one rotation if the mode is automatic by then.
    pub open spec fn after_tick(self, cmd: Option<CommandView>) -> LedState {
        let commanded = self.after_command(cmd);
        if commanded.auto_rotate {
            LedState { color: rotated(commanded.color), auto_rotate: true }
        } else {
            commanded
        }
    }

    /// Whether a tick that found `cmd` waiting counts as a change of state: a
    /// colour was set, or the colour rotated.
    pub open spec fn tick_changes(self, cmd: Option<CommandView>) -> bool {
        cmd is Some && cmd->0 is SetColor || self.after_command(cmd).auto_rotate
    }

    /// The message that tells of this state.
    pub open spec fn message(self) -> ColorMessageView {
        ColorMessageView {
            color: self.color,
            name: color_label(self.color),
            is_auto_mode: self.auto_rotate,
        }
    }

    /// The state after `n` ticks that found no command.
    pub open spec fn after_idle_ticks(self, n: nat) -> LedState
        decreases n,
    {
        if n == 0 {
            self
        } else {
            self.after_idle_ticks((n - 1) as nat).after_tick(None)
        }
    }

    /// The state at start: red at the device's brightness, rotating.
    pub fn new() -> (state: LedState)
        ensures
            state == (LedState {
                color: Rgb8 { r: LED_BRIGHTNESS, g: 0, b: 0 },
                auto_rotate: true,
            }),
    {
        LedState { color: Rgb8 { r: LED_BRIGHTNESS, g: 0, b: 0 }, auto_rotate: true }
    }

    /// One tick of the state alone. Returns the state after it and whether
    /// it changed.
    pub fn tick(self, cmd: Option<LedCommand>) -> (next: (LedState, bool))
        ensures
            next.0 == self.after_tick(waiting_command(cmd)),
            next.1 == self.tick_changes(waiting_command(cmd)),
    {
        let mut color = self.color;
        let mut auto_rotate = self.auto_rotate;
        let mut color_changed = false;
        match cmd {
            Some(LedCommand::SetColor { target_color, name: _ }) => {
                color = target_color;
                auto_rotate = false;
                color_changed = true;
            },
            Some(LedCommand::EnableAuto) => {
                auto_rotate = true;
            },
            None => {},
        }
        if auto_rotate {
            color = rotate_color(color);
            color_changed = true;
        }
        (LedState { color, auto_rotate }, color_changed)
    }
}

/// What a tick does to the broadcast channel: one publish of the new state
/// where the tick changed the state, nothing otherwise.
pub open spec fn channel_after_tick(
    colors: ChannelView<LedColorMessage>,
    published: Option<LedColorMessage>,
) -> ChannelView<LedColorMessage> {
    match published {
        Some(msg) => colors.after_publish(msg),
        None => colors,
    }
}

/// The end of a tick, once the state after it is known and the LED has
/// answered: the state is published once if it changed, and the answer of
/// the LED is passed on in the report. A write that failed changes nothing
/// of what is published.
pub fn conclude_tick(
    next: LedState,
    changed: bool,
    write_result: Result<(), LedError>,
    colors: &mut BroadcastChannel<LedColorMessage>,
) -> (report: TickReport)
    requires
        old(colors).wf(),
    ensures
        final(colors).wf(),
        report.color == next.color,
        report.write_failed == write_result is Err,
        report.published is Some == changed,
        report.published matches Some(msg) ==> msg@ == next.message(),
        final(colors)@ == channel_after_tick(old(colors)@, report.published),
{
    let write_failed = write_result.is_err();
    let published = if changed {
        let msg = LedColorMessage::from_color(next.color, next.auto_rotate);
        colors.publish(msg);
        Some(msg)
    } else {
        None
    };
    TickReport { color: next.color, published, write_failed }
}

/// One tick of the state owner. It takes the waiting command without
/// waiting for one, computes the next state, hands the colour of that state
/// to the LED and, if the state changed, publishes it once. Whatever the LED
/// answers, the state and what is published are the same. Of the writer
/// itself nothing is stated here, since its trait promises nothing:
/// `conclude_tick` says what is reported for each of its answers.
pub fn led_blink_step<L: SmartLedWriter>(
    state: &mut LedState,
    led: &mut L,
    commands: &mut CommandChannel,
    colors: &mut BroadcastChannel<LedColorMessage>,
) -> (report: TickReport)
    requires
        old(colors).wf(),
    ensures
        final(colors).wf(),
        final(commands)@ is None,
        *final(state) == old(state).after_tick(waiting_command(old(commands)@)),
        report.color == final(state).color,
        report.published is Some == old(state).tick_changes(waiting_command(old(commands)@)),
        report.published matches Some(msg) ==> msg@ == final(state).message(),
        final(colors)@ == channel_after_tick(old(colors)@, report.published),
{
    let cmd = commands.try_receive();
    let (next, changed) = state.tick(cmd);
    *state = next;
    let write_result = led.write(next.color);
    conclude_tick(next, changed, write_result, colors)
}

/// Every change of state reaches a subscriber as exactly one message, the
/// state after the tick, at the end of what it has to read; a tick without
/// a change adds nothing. No tick publishes twice.
pub proof fn lemma_one_publish_per_change(
    state: LedState,
    cmd: Option<CommandView>,
    colors: ChannelView<LedColorMessage>,
    published: Option<LedColorMessage>,
    handle: crate::broadcast::SubscriptionHandle,
)
    requires
        colors.is_subscribed(handle),
        colors.pending(handle).len() < colors.queue_cap,
        published is Some == state.tick_changes(cmd),
        published matches Some(msg) ==> msg@ == state.after_tick(cmd).message(),
    ensures
        state.tick_changes(cmd) ==> channel_after_tick(colors, published).pending(handle)
            == colors.pending(handle).push(published->0) && published->0@ == state.after_tick(
            cmd,
        ).message(),
        !state.tick_changes(cmd) ==> channel_after_tick(colors, published) == colors
            && state.after_tick(cmd) == state,
{
    if published is Some {
        crate::broadcast::lemma_publish_reaches_subscriber(colors, handle, published->0);
    }
}

/// Ticks without a command in automatic mode rotate the colour once each and
/// stay automatic; in manual mode they change nothing.
pub proof fn lemma_idle_ticks(state: LedState, n: nat)
    ensures
        state.auto_rotate ==> state.after_idle_ticks(n) == (LedState {
            color: rotated_by(state.color, n),
            auto_rotate: true,
        }),
        !state.auto_rotate ==> state.after_idle_ticks(n) == state,
    decreases n,
{
    if n > 0 {
        lemma_idle_ticks(state, (n - 1) as nat);
    }
}

/// With no commands the colour in automatic mode has period three: it is
/// the same after `n` and after `n + 3` ticks, so it is back where it began
/// after three, and it depends on `n` modulo three only. From a canonical
/// colour it takes exactly three values, each canonical, no two the same.
pub proof fn lemma_auto_cycle_has_period_three(state: LedState, n: nat)
    requires
        state.auto_rotate,
    ensures
        state.after_idle_ticks(3) == state,
        state.after_idle_ticks(n + 3) == state.after_idle_ticks(n),
        state.after_idle_ticks(n) == state.after_idle_ticks(n % 3),
        is_canonical(state.color) ==> {
            &&& is_canonical(state.after_idle_ticks(n).color)
            &&& state.after_idle_ticks(1).color != state.color
            &&& state.after_idle_ticks(2).color != state.color
            &&& state.after_idle_ticks(2).color != state.after_idle_ticks(1).color
        },
{
    lemma_idle_ticks(state, n);
    lemma_idle_ticks(state, n + 3);
    lemma_idle_ticks(state, n % 3);
    lemma_idle_ticks(state, 0);
    lemma_idle_ticks(state, 1);
    lemma_idle_ticks(state, 2);
    lemma_idle_ticks(state, 3);
    lemma_rotation_by_remainder(state.color, n);
    lemma_rotation_by_remainder(state.color, n + 3);
    lemma_rotation_by_remainder(state.color, 3);
    assert((n + 3) % 3 == n % 3);
    reveal_with_fuel(rotated_by, 4);
    if is_canonical(state.color) {
        lemma_rotation_three_cycle(state.color);
    }
}

/// A colour that is set is shown from the next tick on, in manual mode, and
/// stays while no other command comes: the rotation has stopped. This holds
/// of every state in which the command arrives.
pub proof fn lemma_set_color_stops_rotation(
    state: LedState,
    target_color: Rgb8,
    name: Seq<char>,
    n: nat,
)
    ensures
        state.after_tick(Some(CommandView::SetColor { target_color, name })) == (LedState {
            color: target_color,
            auto_rotate: false,
        }),
        state.after_tick(Some(CommandView::SetColor { target_color, name })).after_idle_ticks(n)
            == (LedState { color: target_color, auto_rotate: false }),
        state.tick_changes(Some(CommandView::SetColor { target_color, name })),
{
    lemma_idle_ticks(LedState { color: target_color, auto_rotate: false }, n);
}

/// The wish to rotate sets no colour of its own: the command alone leaves
/// the colour as it is and turns the mode to automatic, and the tick that
/// takes it rotates from that colour, as every later tick does.
pub proof fn lemma_enable_auto_resumes_rotation(state: LedState, n: nat)
    ensures
        state.after_command(Some(CommandView::EnableAuto)) == (LedState {
            color: state.color,
            auto_rotate: true,
        }),
        state.after_tick(Some(CommandView::EnableAuto)) == (LedState {
            color: rotated(state.color),
            auto_rotate: true,
        }),
        state.after_tick(Some(CommandView::EnableAuto)).after_idle_ticks(n) == (LedState {
            color: rotated_by(rotated(state.color), n),
            auto_rotate: true,
        }),
{
    lemma_idle_ticks(LedState { color: rotated(state.color), auto_rotate: true }, n);
}

/// A tick is a change exactly when it ends in automatic mode or took a
/// colour to set: in automatic mode every tick is one, and a tick in manual
/// mode without a command is none.
pub proof fn lemma_when_a_tick_changes(state: LedState, cmd: Option<CommandView>)
    ensures
        state.after_tick(cmd).auto_rotate ==> state.tick_changes(cmd),
        !state.auto_rotate && cmd is None ==> !state.tick_changes(cmd) && state.after_tick(cmd)
            == state,
        !state.tick_changes(cmd) ==> state.after_tick(cmd) == state,
{
}

} // verus!
