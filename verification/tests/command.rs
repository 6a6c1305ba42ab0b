use hearth_shared::command::id;
use hearth_shared::command::{Command, DecodeError};

#[test]
fn round_trip_all() {
    for cmd in [
        Command::LedOff,
        Command::LedOn,
        Command::SetColor { r: 255, g: 0, b: 0 },
        Command::SetColor { r: 0, g: 128, b: 255 },
        Command::SetBrightness(64),
    ] {
        assert_eq!(Command::decode(&cmd.encode()), Ok(cmd));
    }
}

#[test]
fn set_color_red_bytes() {
    assert_eq!(Command::decode(&[0x02, 0xFF, 0x00, 0x00]), Ok(Command::SetColor { r: 255, g: 0, b: 0 }));
    assert_eq!(Command::SetColor { r: 255, g: 0, b: 0 }.encode(), vec![0x02, 0xFF, 0x00, 0x00]);
}

#[test]
fn errors() {
    assert_eq!(Command::decode(&[]), Err(DecodeError::Empty));
    assert_eq!(Command::decode(&[0x99]), Err(DecodeError::UnknownId(0x99)));
    assert_eq!(Command::decode(&[0x02, 0xFF]), Err(DecodeError::BadLength { id: 0x02, expected: 3, got: 1 }));
    assert_eq!(Command::decode(&[0x00, 0x01]), Err(DecodeError::BadLength { id: 0x00, expected: 0, got: 1 }));
}

#[test]
fn ids_match_first_encoded_byte() {
    for cmd in [
        Command::LedOff,
        Command::LedOn,
        Command::SetColor { r: 1, g: 2, b: 3 },
        Command::SetBrightness(0),
    ] {
        assert_eq!(cmd.encode()[0], cmd.id());
    }
    assert_eq!(Command::LedOff.id(), id::LED_OFF);
    assert_eq!(Command::LedOn.id(), id::LED_ON);
    assert_eq!(Command::SetColor { r: 0, g: 0, b: 0 }.id(), id::SET_COLOR);
    assert_eq!(Command::SetBrightness(9).id(), id::SET_BRIGHTNESS);
}

#[test]
fn readme_examples_decode() {
    assert_eq!(Command::decode(&[0x02, 0x00, 0xFF, 0x00]), Ok(Command::SetColor { r: 0, g: 255, b: 0 }));
    assert_eq!(Command::decode(&[0x02, 0x00, 0x00, 0xFF]), Ok(Command::SetColor { r: 0, g: 0, b: 255 }));
    assert_eq!(Command::decode(&[0x02, 0xFF, 0xFF, 0xFF]), Ok(Command::SetColor { r: 255, g: 255, b: 255 }));
    assert_eq!(Command::decode(&[0x00]), Ok(Command::LedOff));
    assert_eq!(Command::decode(&[0x01]), Ok(Command::LedOn));
    assert_eq!(Command::decode(&[0x03, 0x80]), Ok(Command::SetBrightness(0x80)));
}

#[test]
fn encoded_bytes_decode_back_to_themselves() {
    for bytes in [vec![0x00u8], vec![0x01], vec![0x02, 7, 8, 9], vec![0x03, 0xFE]] {
        let cmd = Command::decode(&bytes).unwrap();
        assert_eq!(cmd.encode(), bytes);
    }
}

#[test]
fn more_error_cases() {
    assert_eq!(Command::decode(&[0x04]), Err(DecodeError::UnknownId(0x04)));
    assert_eq!(Command::decode(&[0xFF, 1, 2]), Err(DecodeError::UnknownId(0xFF)));
    assert_eq!(Command::decode(&[0x01, 0x00, 0x00]), Err(DecodeError::BadLength { id: 0x01, expected: 0, got: 2 }));
    assert_eq!(Command::decode(&[0x03]), Err(DecodeError::BadLength { id: 0x03, expected: 1, got: 0 }));
    assert_eq!(Command::decode(&[0x03, 1, 2]), Err(DecodeError::BadLength { id: 0x03, expected: 1, got: 2 }));
    assert_eq!(Command::decode(&[0x02, 1, 2, 3, 4]), Err(DecodeError::BadLength { id: 0x02, expected: 3, got: 4 }));
}

#[test]
fn error_messages() {
    assert_eq!(DecodeError::Empty.message(), "empty command (need at least the id byte)");
    assert_eq!(DecodeError::UnknownId(0x99).message(), "unknown command id 0x99");
    assert_eq!(DecodeError::UnknownId(0x0a).message(), "unknown command id 0x0a");
    assert_eq!(
        DecodeError::BadLength { id: 0x02, expected: 3, got: 1 }.message(),
        "command 0x02: expected 3 payload byte(s), got 1"
    );
    assert_eq!(
        DecodeError::BadLength { id: 0xff, expected: 0, got: 1234567 }.message(),
        "command 0xff: expected 0 payload byte(s), got 1234567"
    );
}
