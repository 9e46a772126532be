use esp_led_steuerung::broadcast::BroadcastChannel;
use esp_led_steuerung::mailbox::CommandChannel;
use esp_led_steuerung::state_owner::{conclude_tick, led_blink_step, LedState};
use esp_led_steuerung::{LedColorMessage, LedCommand, LedError, MockLedWriter, Rgb8};
use esp_led_steuerung::SmartLedWriter;

const RED: Rgb8 = Rgb8 { r: 10, g: 0, b: 0 };
const GREEN: Rgb8 = Rgb8 { r: 0, g: 10, b: 0 };
const BLUE: Rgb8 = Rgb8 { r: 0, g: 0, b: 10 };

#[test]
fn state_starts_red_and_automatic() {
    assert_eq!(LedState::new(), LedState { color: RED, auto_rotate: true });
}

#[test]
fn idle_ticks_cycle_through_three_colours() {
    let mut state = LedState::new();
    let mut seen = Vec::new();
    for _ in 0..6 {
        let (next, changed) = state.tick(None);
        assert!(changed);
        assert!(next.auto_rotate);
        seen.push(next.color);
        state = next;
    }
    assert_eq!(seen, vec![GREEN, BLUE, RED, GREEN, BLUE, RED]);
}

#[test]
fn three_automatic_ticks_return_to_the_start() {
    for start in [RED, GREEN, BLUE, Rgb8 { r: 1, g: 2, b: 3 }] {
        let mut state = LedState { color: start, auto_rotate: true };
        for _ in 0..3 {
            state = state.tick(None).0;
        }
        assert_eq!(state, LedState { color: start, auto_rotate: true });
    }
}

#[test]
fn idle_tick_in_manual_mode_changes_nothing() {
    let state = LedState { color: BLUE, auto_rotate: false };
    assert_eq!(state.tick(None), (state, false));
}

#[test]
fn set_color_switches_to_manual_and_stops_rotation() {
    let state = LedState { color: GREEN, auto_rotate: true };
    let cmd = LedCommand::SetColor { target_color: RED, name: "Rot" };
    let (next, changed) = state.tick(Some(cmd));
    assert!(changed);
    assert_eq!(next, LedState { color: RED, auto_rotate: false });
    let (later, changed) = next.tick(None);
    assert!(!changed);
    assert_eq!(later, next);
}

#[test]
fn set_color_in_manual_mode_counts_as_a_change() {
    let state = LedState { color: RED, auto_rotate: false };
    let cmd = LedCommand::SetColor { target_color: RED, name: "Rot" };
    assert_eq!(state.tick(Some(cmd)), (state, true));
}

#[test]
fn enable_auto_resumes_rotation_from_the_current_colour() {
    let state = LedState { color: Rgb8 { r: 7, g: 0, b: 0 }, auto_rotate: false };
    let (next, changed) = state.tick(Some(LedCommand::EnableAuto));
    assert!(changed);
    assert_eq!(next, LedState { color: Rgb8 { r: 0, g: 7, b: 0 }, auto_rotate: true });
    let (later, _) = next.tick(None);
    assert_eq!(later, LedState { color: Rgb8 { r: 0, g: 0, b: 7 }, auto_rotate: true });
}

#[test]
fn step_publishes_each_change_once() {
    let mut state = LedState::new();
    let mut led = MockLedWriter::new();
    let mut commands = CommandChannel::new();
    let mut colors: BroadcastChannel<LedColorMessage> = BroadcastChannel::new(2, 10);
    let handle = colors.subscribe().unwrap();

    let report = led_blink_step(&mut state, &mut led, &mut commands, &mut colors);
    let expected = LedColorMessage { color: GREEN, name: "Grün", is_auto_mode: true };
    assert_eq!(report.published, Some(expected));
    assert!(!report.write_failed);
    assert_eq!(report.color, GREEN);
    assert_eq!(led.last_color, Some(GREEN));
    assert_eq!(colors.pending_len(handle), 1);
    assert_eq!(colors.try_next(handle), Some(expected));
    assert_eq!(colors.try_next(handle), None);
}

#[test]
fn step_without_a_change_publishes_nothing() {
    let mut state = LedState { color: BLUE, auto_rotate: false };
    let mut led = MockLedWriter::new();
    let mut commands = CommandChannel::new();
    let mut colors: BroadcastChannel<LedColorMessage> = BroadcastChannel::new(2, 10);
    let handle = colors.subscribe().unwrap();

    let report = led_blink_step(&mut state, &mut led, &mut commands, &mut colors);
    assert_eq!(report.published, None);
    assert_eq!(state, LedState { color: BLUE, auto_rotate: false });
    // The colour is written on every tick, changed or not.
    assert_eq!(led.write_count, 1);
    assert_eq!(led.last_color, Some(BLUE));
    assert_eq!(colors.try_next(handle), None);
}

#[test]
fn set_color_while_automatic_and_green() {
    let mut state = LedState { color: GREEN, auto_rotate: true };
    let mut led = MockLedWriter::new();
    let mut commands = CommandChannel::new();
    let mut colors: BroadcastChannel<LedColorMessage> = BroadcastChannel::new(2, 10);
    let handle = colors.subscribe().unwrap();
    commands
        .try_send(LedCommand::SetColor { target_color: Rgb8 { r: 10, g: 0, b: 0 }, name: "Rot" })
        .unwrap();

    let report = led_blink_step(&mut state, &mut led, &mut commands, &mut colors);

    assert_eq!(state, LedState { color: Rgb8 { r: 10, g: 0, b: 0 }, auto_rotate: false });
    let expected =
        LedColorMessage { color: Rgb8 { r: 10, g: 0, b: 0 }, name: "Rot", is_auto_mode: false };
    assert_eq!(report.published, Some(expected));
    assert!(!commands.is_full());
    assert_eq!(colors.pending_len(handle), 1);
    assert_eq!(colors.try_next(handle), Some(expected));
    assert_eq!(colors.try_next(handle), None);
}

#[test]
fn failed_write_does_not_stop_the_tick() {
    let mut state = LedState::new();
    let mut led = MockLedWriter::new();
    led.fail_next_write = true;
    let mut commands = CommandChannel::new();
    let mut colors: BroadcastChannel<LedColorMessage> = BroadcastChannel::new(2, 10);
    let handle = colors.subscribe().unwrap();

    let report = led_blink_step(&mut state, &mut led, &mut commands, &mut colors);
    assert!(report.write_failed);
    assert_eq!(report.color, GREEN);
    assert_eq!(state, LedState { color: GREEN, auto_rotate: true });
    let green = LedColorMessage { color: GREEN, name: "Grün", is_auto_mode: true };
    assert_eq!(report.published, Some(green));
    assert_eq!(colors.try_next(handle), Some(green));
    assert_eq!(led.write_count, 0);
    assert_eq!(led.last_color, None);

    // The next tick goes on from the computed state, not from what the LED shows.
    let report = led_blink_step(&mut state, &mut led, &mut commands, &mut colors);
    assert!(!report.write_failed);
    assert_eq!(state, LedState { color: BLUE, auto_rotate: true });
    let blue = LedColorMessage { color: BLUE, name: "Blau", is_auto_mode: true };
    assert_eq!(report.published, Some(blue));
    assert_eq!(colors.try_next(handle), Some(blue));
    assert_eq!(led.write_count, 1);
    assert_eq!(led.last_color, Some(BLUE));
}

#[test]
fn step_with_an_unnamed_colour_publishes_it_as_unknown() {
    let mut state = LedState::new();
    let mut led = MockLedWriter::new();
    let mut commands = CommandChannel::new();
    let mut colors: BroadcastChannel<LedColorMessage> = BroadcastChannel::new(2, 1);
    let handle = colors.subscribe().unwrap();
    let odd = Rgb8 { r: 1, g: 2, b: 3 };
    commands.try_send(LedCommand::SetColor { target_color: odd, name: "Rot" }).unwrap();

    led_blink_step(&mut state, &mut led, &mut commands, &mut colors);
    assert_eq!(
        colors.try_next(handle),
        Some(LedColorMessage { color: odd, name: "Unbekannt", is_auto_mode: false })
    );
}

#[test]
fn step_takes_one_command_per_tick() {
    let mut state = LedState::new();
    let mut led = MockLedWriter::new();
    let mut commands = CommandChannel::new();
    let mut colors: BroadcastChannel<LedColorMessage> = BroadcastChannel::new(2, 1);
    commands.try_send(LedCommand::SetColor { target_color: BLUE, name: "Blau" }).unwrap();
    led_blink_step(&mut state, &mut led, &mut commands, &mut colors);
    assert_eq!(state, LedState { color: BLUE, auto_rotate: false });
    commands.try_send(LedCommand::EnableAuto).unwrap();
    led_blink_step(&mut state, &mut led, &mut commands, &mut colors);
    assert_eq!(state, LedState { color: RED, auto_rotate: true });
}

#[test]
fn conclusion_of_a_tick_for_every_answer_of_the_led() {
    let next = LedState { color: GREEN, auto_rotate: true };
    let green = LedColorMessage { color: GREEN, name: "Grün", is_auto_mode: true };
    for (write_result, failed) in [(Ok(()), false), (Err(LedError::WriteFailed), true)] {
        let mut colors: BroadcastChannel<LedColorMessage> = BroadcastChannel::new(2, 1);
        let handle = colors.subscribe().unwrap();
        let report = conclude_tick(next, true, write_result, &mut colors);
        assert_eq!(report.write_failed, failed);
        assert_eq!(report.published, Some(green));
        assert_eq!(colors.try_next(handle), Some(green));
        assert_eq!(colors.try_next(handle), None);

        let report = conclude_tick(next, false, write_result, &mut colors);
        assert_eq!(report.write_failed, failed);
        assert_eq!(report.published, None);
        assert_eq!(colors.try_next(handle), None);
    }
}

/// A writer of the caller's own: it fails every write.
struct DeadLed {
    asked: Vec<Rgb8>,
}

impl SmartLedWriter for DeadLed {
    fn write(&mut self, color: Rgb8) -> Result<(), LedError> {
        self.asked.push(color);
        Err(LedError::WriteFailed)
    }
}

#[test]
fn step_hands_the_new_colour_to_any_writer_once() {
    let mut state = LedState::new();
    let mut led = DeadLed { asked: Vec::new() };
    let mut commands = CommandChannel::new();
    let mut colors: BroadcastChannel<LedColorMessage> = BroadcastChannel::new(2, 1);
    let handle = colors.subscribe().unwrap();
    for expected in [GREEN, BLUE, RED] {
        let before = led.asked.len();
        let report = led_blink_step(&mut state, &mut led, &mut commands, &mut colors);
        assert!(report.write_failed);
        assert_eq!(report.color, expected);
        assert_eq!(led.asked.len(), before + 1);
        assert_eq!(led.asked.last(), Some(&expected));
        assert_eq!(colors.try_next(handle).map(|msg| msg.color), Some(expected));
    }
}
