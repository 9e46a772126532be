use esp_led_steuerung::{rotate_color, LedColorMessage, LedCommand, LedError};
use esp_led_steuerung::{led_command_from_name, MockLedWriter, Rgb8, SmartLedWriter};

#[test]
fn led_tests_test_mock_led_writer_write() {
    let mut mock = MockLedWriter::new();
    let color = Rgb8 { r: 10, g: 0, b: 0 };

    assert_eq!(mock.write_count, 0);
    assert_eq!(mock.last_color, None);

    mock.write(color).unwrap();

    assert_eq!(mock.write_count, 1);
    assert_eq!(mock.last_color, Some(color));
}

#[test]
fn led_tests_test_mock_led_writer_multiple_writes() {
    let mut mock = MockLedWriter::new();

    mock.write(Rgb8 { r: 10, g: 0, b: 0 }).unwrap();
    mock.write(Rgb8 { r: 0, g: 10, b: 0 }).unwrap();
    mock.write(Rgb8 { r: 0, g: 0, b: 10 }).unwrap();

    assert_eq!(mock.write_count, 3);
    assert_eq!(mock.last_color, Some(Rgb8 { r: 0, g: 0, b: 10 }));
}

#[test]
fn led_tests_test_mock_led_writer_fail() {
    let mut mock = MockLedWriter::new();
    mock.fail_next_write = true;

    let result = mock.write(Rgb8 { r: 10, g: 0, b: 0 });
    assert_eq!(result, Err(LedError::WriteFailed));
    assert_eq!(mock.write_count, 0);
    assert_eq!(mock.last_color, None);
}

#[test]
fn test_mock_led_writer_recovers_after_fail() {
    let mut mock = MockLedWriter::new();
    mock.fail_next_write = true;

    let result1 = mock.write(Rgb8 { r: 10, g: 0, b: 0 });
    assert!(result1.is_err());

    let result2 = mock.write(Rgb8 { r: 0, g: 10, b: 0 });
    assert!(result2.is_ok());
    assert_eq!(mock.write_count, 1);
    assert_eq!(mock.last_color, Some(Rgb8 { r: 0, g: 10, b: 0 }));
}

#[test]
fn led_tests_test_rotate_color_red_to_green() {
    let red = Rgb8 { r: 10, g: 0, b: 0 };
    let green = rotate_color(red);
    assert_eq!(green, Rgb8 { r: 0, g: 10, b: 0 });
}

#[test]
fn led_tests_test_rotate_color_green_to_blue() {
    let green = Rgb8 { r: 0, g: 10, b: 0 };
    let blue = rotate_color(green);
    assert_eq!(blue, Rgb8 { r: 0, g: 0, b: 10 });
}

#[test]
fn led_tests_test_rotate_color_blue_to_red() {
    let blue = Rgb8 { r: 0, g: 0, b: 10 };
    let red = rotate_color(blue);
    assert_eq!(red, Rgb8 { r: 10, g: 0, b: 0 });
}

#[test]
fn led_tests_test_rotate_color_full_cycle() {
    let mut color = Rgb8 { r: 10, g: 0, b: 0 };
    color = rotate_color(color);
    color = rotate_color(color);
    color = rotate_color(color);
    assert_eq!(color, Rgb8 { r: 10, g: 0, b: 0 });
}

#[test]
fn test_led_color_message_red_auto() {
    let color = Rgb8 { r: 10, g: 0, b: 0 };
    let msg = LedColorMessage::from_color(color, true);
    assert_eq!(msg.name, "Rot");
    assert_eq!(msg.color, color);
    assert!(msg.is_auto_mode);
}

#[test]
fn test_led_color_message_green_manual() {
    let color = Rgb8 { r: 0, g: 10, b: 0 };
    let msg = LedColorMessage::from_color(color, false);
    assert_eq!(msg.name, "Grün");
    assert_eq!(msg.color, color);
    assert!(!msg.is_auto_mode);
}

#[test]
fn test_led_color_message_blue() {
    let color = Rgb8 { r: 0, g: 0, b: 10 };
    let msg = LedColorMessage::from_color(color, true);
    assert_eq!(msg.name, "Blau");
    assert_eq!(msg.color, color);
}

#[test]
fn test_led_color_message_unknown() {
    let color = Rgb8 { r: 10, g: 10, b: 10 };
    let msg = LedColorMessage::from_color(color, false);
    assert_eq!(msg.name, "Unbekannt");
}

#[test]
fn test_led_command_try_from_rot() {
    let cmd = LedCommand::try_from("Rot");
    assert!(cmd.is_ok());
    match cmd.unwrap() {
        LedCommand::SetColor { target_color, name } => {
            assert_eq!(name, "Rot");
            assert_eq!(target_color.r, 10);
            assert_eq!(target_color.g, 0);
            assert_eq!(target_color.b, 0);
        }
        _ => panic!("Expected SetColor variant"),
    }
}

#[test]
fn test_led_command_try_from_invalid() {
    let cmd = LedCommand::try_from("Gelb");
    assert!(cmd.is_err());
}

#[test]
fn test_led_command_enable_auto() {
    let cmd = LedCommand::EnableAuto;
    match cmd {
        LedCommand::EnableAuto => {}
        _ => panic!("Expected EnableAuto variant"),
    }
}

#[test]
fn led_color_message_names_only_single_channels() {
    assert_eq!(LedColorMessage::from_color(Rgb8 { r: 0, g: 0, b: 0 }, true).name, "Unbekannt");
    assert_eq!(LedColorMessage::from_color(Rgb8 { r: 1, g: 0, b: 0 }, true).name, "Rot");
    assert_eq!(LedColorMessage::from_color(Rgb8 { r: 255, g: 0, b: 0 }, true).name, "Rot");
    assert_eq!(LedColorMessage::from_color(Rgb8 { r: 0, g: 1, b: 0 }, true).name, "Grün");
    assert_eq!(LedColorMessage::from_color(Rgb8 { r: 0, g: 0, b: 255 }, true).name, "Blau");
    assert_eq!(LedColorMessage::from_color(Rgb8 { r: 1, g: 1, b: 0 }, true).name, "Unbekannt");
    assert_eq!(LedColorMessage::from_color(Rgb8 { r: 0, g: 1, b: 1 }, true).name, "Unbekannt");
    assert_eq!(LedColorMessage::from_color(Rgb8 { r: 1, g: 0, b: 1 }, true).name, "Unbekannt");
}

#[test]
fn led_command_try_from_every_name() {
    assert_eq!(
        LedCommand::try_from("Grün"),
        Ok(LedCommand::SetColor { target_color: Rgb8 { r: 0, g: 10, b: 0 }, name: "Grün" })
    );
    assert_eq!(
        LedCommand::try_from("Blau"),
        Ok(LedCommand::SetColor { target_color: Rgb8 { r: 0, g: 0, b: 10 }, name: "Blau" })
    );
    assert_eq!(LedCommand::try_from(""), Err(()));
    assert_eq!(LedCommand::try_from("rot"), Err(()));
    assert_eq!(LedCommand::try_from("Rot "), Err(()));
    assert_eq!(LedCommand::try_from("Grun"), Err(()));
    assert_eq!(LedCommand::try_from("Unbekannt"), Err(()));
}

#[test]
fn led_command_from_name_uses_the_device_brightness() {
    assert_eq!(
        led_command_from_name("Rot"),
        Ok(LedCommand::SetColor { target_color: Rgb8 { r: 10, g: 0, b: 0 }, name: "Rot" })
    );
    assert_eq!(
        led_command_from_name("Grün"),
        Ok(LedCommand::SetColor { target_color: Rgb8 { r: 0, g: 10, b: 0 }, name: "Grün" })
    );
    assert_eq!(
        led_command_from_name("Blau"),
        Ok(LedCommand::SetColor { target_color: Rgb8 { r: 0, g: 0, b: 10 }, name: "Blau" })
    );
    assert_eq!(led_command_from_name("Gelb"), Err(()));
}

#[test]
fn a_named_command_sets_a_colour_of_that_name() {
    for name in ["Rot", "Grün", "Blau"] {
        match led_command_from_name(name) {
            Ok(LedCommand::SetColor { target_color, name: given }) => {
                assert_eq!(given, name);
                assert_eq!(LedColorMessage::from_color(target_color, false).name, name);
            }
            _ => panic!("no command for a known name"),
        }
    }
}
