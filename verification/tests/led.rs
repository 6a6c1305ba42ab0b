use hearth_shared::command::{Command, DecodeError};
use hearth_shared::led::{scale, LedState, Rgb};

#[test]
fn fresh_led_is_dark_white_full() {
    let led = LedState::new();
    assert!(!led.on);
    assert_eq!(led.color, Rgb { r: 255, g: 255, b: 255 });
    assert_eq!(led.brightness, 255);
    assert_eq!(led.pixel(), Rgb { r: 0, g: 0, b: 0 });
    assert_eq!(led.state_bytes(), [0, 255, 255, 255, 255]);
}

#[test]
fn dim_red_at_quarter_brightness() {
    let mut led = LedState::new();
    assert_eq!(led.handle_write(&[0x03, 0x40]), Ok([0, 255, 255, 255, 0x40]));
    assert_eq!(led.handle_write(&[0x02, 0xFF, 0x00, 0x00]), Ok([1, 255, 0, 0, 0x40]));
    assert_eq!(led.pixel(), Rgb { r: 64, g: 0, b: 0 });
}

#[test]
fn off_then_on_restores_last_color() {
    let mut led = LedState::new();
    led.apply(Command::SetColor { r: 0, g: 255, b: 0 });
    led.apply(Command::LedOff);
    assert_eq!(led.pixel(), Rgb { r: 0, g: 0, b: 0 });
    assert_eq!(led.state_bytes(), [0, 0, 255, 0, 255]);
    led.apply(Command::LedOn);
    assert_eq!(led.pixel(), Rgb { r: 0, g: 255, b: 0 });
    assert_eq!(led.state_bytes(), [1, 0, 255, 0, 255]);
}

#[test]
fn malformed_writes_are_ignored() {
    let mut led = LedState::new();
    led.apply(Command::SetColor { r: 1, g: 2, b: 3 });
    let before = led;
    assert_eq!(led.handle_write(&[]), Err(DecodeError::Empty));
    assert_eq!(led.handle_write(&[0x42]), Err(DecodeError::UnknownId(0x42)));
    assert_eq!(led.handle_write(&[0x02, 1]), Err(DecodeError::BadLength { id: 2, expected: 3, got: 1 }));
    assert_eq!(led, before);
}

#[test]
fn brightness_keeps_power_and_color() {
    let mut led = LedState::new();
    led.apply(Command::LedOn);
    led.apply(Command::SetBrightness(0x80));
    assert!(led.on);
    assert_eq!(led.color, Rgb { r: 255, g: 255, b: 255 });
    assert_eq!(led.pixel(), Rgb { r: 128, g: 128, b: 128 });
}

#[test]
fn scale_formula() {
    let c = Rgb { r: 200, g: 100, b: 1 };
    assert_eq!(scale(c, 255), c);
    assert_eq!(scale(c, 0), Rgb { r: 0, g: 0, b: 0 });
    assert_eq!(scale(c, 128), Rgb { r: 100, g: 50, b: 0 });
    assert_eq!(scale(Rgb { r: 255, g: 255, b: 255 }, 1), Rgb { r: 1, g: 1, b: 1 });
}
