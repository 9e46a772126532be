use esp_led_steuerung::{rotate_color, Rgb8};

#[test]
fn logic_test_rotate_color_red_to_green() {
    let red = Rgb8 { r: 10, g: 0, b: 0 };
    let green = rotate_color(red);
    assert_eq!(green, Rgb8 { r: 0, g: 10, b: 0 });
}

#[test]
fn logic_test_rotate_color_green_to_blue() {
    let green = Rgb8 { r: 0, g: 10, b: 0 };
    let blue = rotate_color(green);
    assert_eq!(blue, Rgb8 { r: 0, g: 0, b: 10 });
}

#[test]
fn logic_test_rotate_color_blue_to_red() {
    let blue = Rgb8 { r: 0, g: 0, b: 10 };
    let red = rotate_color(blue);
    assert_eq!(red, Rgb8 { r: 10, g: 0, b: 0 });
}

#[test]
fn logic_test_rotate_color_full_cycle() {
    let mut color = Rgb8 { r: 10, g: 0, b: 0 };
    color = rotate_color(color);
    color = rotate_color(color);
    color = rotate_color(color);
    assert_eq!(color, Rgb8 { r: 10, g: 0, b: 0 });
}

#[test]
fn rotate_color_moves_every_channel() {
    let mixed = Rgb8 { r: 1, g: 2, b: 3 };
    assert_eq!(rotate_color(mixed), Rgb8 { r: 3, g: 1, b: 2 });
    assert_eq!(rotate_color(rotate_color(mixed)), Rgb8 { r: 2, g: 3, b: 1 });
    assert_eq!(rotate_color(rotate_color(rotate_color(mixed))), mixed);
}

#[test]
fn rotate_color_keeps_black_and_white() {
    let black = Rgb8 { r: 0, g: 0, b: 0 };
    let white = Rgb8 { r: 255, g: 255, b: 255 };
    assert_eq!(rotate_color(black), black);
    assert_eq!(rotate_color(white), white);
}
