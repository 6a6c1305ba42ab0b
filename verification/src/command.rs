//! Structured command envelope: the bytes a client writes to the BLE command
//! characteristic.
//!
//! ```text
//!   byte 0      = command id (u8)
//!   bytes 1..N  = payload, meaning depends on the id
//! ```
//!
//! | id   | command        | payload            |
//! |------|----------------|--------------------|
//! | 0x00 | LedOff         | (none)             |
//! | 0x01 | LedOn          | (none)             |
//! | 0x02 | SetColor       | 3 bytes: R, G, B   |
//! | 0x03 | SetBrightness  | 1 byte: 0..=255    |
use vstd::prelude::*;

use crate::text::{
    decimal, decimal_value, hex_byte, hex_value, lemma_decimal_value, lemma_hex_byte_value,
    push_decimal, push_hex_byte,
};

pub mod id;

use self::id::{LED_OFF, LED_ON, SET_BRIGHTNESS, SET_COLOR};

verus! {

/// A decoded command.
#[derive(Debug, Clone, Copy, PartialEq, Eq, Structural)]
pub enum Command {
    LedOff,
    LedOn,
    SetColor { r: u8, g: u8, b: u8 },
    SetBrightness(u8),
}

/// Why a byte slice failed to decode into a [`Command`].
#[derive(Debug, Clone, Copy, PartialEq, Eq, Structural)]
pub enum DecodeError {
    Empty,
    UnknownId(u8),
    BadLength { id: u8, expected: usize, got: usize },
}

/// The number of payload bytes that the command with id `id` carries, or
/// `None` where no command has that id.
pub open spec fn expected_payload_len(id: u8) -> Option<usize> {
    if id == LED_OFF || id == LED_ON {
        Some(0usize)
    } else if id == SET_COLOR {
        Some(3usize)
    } else if id == SET_BRIGHTNESS {
        Some(1usize)
    } else {
        None
    }
}

/// What `bytes` decode to: the id is byte 0, the payload the rest, and the
/// payload must have exactly the length that the id asks for.
pub open spec fn spec_decode(bytes: Seq<u8>) -> Result<Command, DecodeError> {
    if bytes.len() == 0 {
        Err(DecodeError::Empty)
    } else {
        let id = bytes[0];
        let payload = bytes.drop_first();
        match expected_payload_len(id) {
            None => Err(DecodeError::UnknownId(id)),
            Some(n) => if payload.len() != n {
                Err(DecodeError::BadLength { id, expected: n, got: payload.len() as usize })
            } else if id == LED_OFF {
                Ok(Command::LedOff)
            } else if id == LED_ON {
                Ok(Command::LedOn)
            } else if id == SET_COLOR {
                Ok(Command::SetColor { r: payload[0], g: payload[1], b: payload[2] })
            } else {
                Ok(Command::SetBrightness(payload[0]))
            },
        }
    }
}

impl Command {
    /// The id byte of this command.
    pub open spec fn spec_id(self) -> u8 {
        match self {
            Command::LedOff => LED_OFF,
            Command::LedOn => LED_ON,
            Command::SetColor { .. } => SET_COLOR,
            Command::SetBrightness(_) => SET_BRIGHTNESS,
        }
    }

    /// The wire bytes of this command: its id, then its payload.
    pub open spec fn spec_encode(self) -> Seq<u8> {
        match self {
            Command::LedOff => seq![LED_OFF],
            Command::LedOn => seq![LED_ON],
            Command::SetColor { r, g, b } => seq![SET_COLOR, r, g, b],
            Command::SetBrightness(v) => seq![SET_BRIGHTNESS, v],
        }
    }

    /// The id byte this command encodes to.
    pub fn id(&self) -> (res: u8)
        ensures
            res == self.spec_id(),
    {
        match self {
            Command::LedOff => LED_OFF,
            Command::LedOn => LED_ON,
            Command::SetColor { .. } => SET_COLOR,
            Command::SetBrightness(_) => SET_BRIGHTNESS,
        }
    }

    /// Decode wire bytes (byte 0 = id, bytes 1.. = payload) into a `Command`.
    pub fn decode(bytes: &[u8]) -> (res: Result<Command, DecodeError>)
        ensures
            res == spec_decode(bytes@),
    {
        if bytes.len() == 0 {
            return Err(DecodeError::Empty);
        }
        let id = bytes[0];
        let got: usize = bytes.len() - 1;
        let ghost payload = bytes@.drop_first();
        assert(payload.len() == got);
        let need: usize = if id == LED_OFF || id == LED_ON {
            0
        } else if id == SET_COLOR {
            3
        } else if id == SET_BRIGHTNESS {
            1
        } else {
            return Err(DecodeError::UnknownId(id));
        };
        if got != need {
            return Err(DecodeError::BadLength { id, expected: need, got });
        }
        if id == LED_OFF {
            Ok(Command::LedOff)
        } else if id == LED_ON {
            Ok(Command::LedOn)
        } else if id == SET_COLOR {
            Ok(Command::SetColor { r: bytes[1], g: bytes[2], b: bytes[3] })
        } else {
            Ok(Command::SetBrightness(bytes[1]))
        }
    }

    /// Encode to wire bytes: the exact inverse of [`Command::decode`].
    pub fn encode(&self) -> (res: Vec<u8>)
        ensures
            res@ == self.spec_encode(),
    {
        match *self {
            Command::LedOff => vec![LED_OFF],
            Command::LedOn => vec![LED_ON],
            Command::SetColor { r, g, b } => vec![SET_COLOR, r, g, b],
            Command::SetBrightness(v) => vec![SET_BRIGHTNESS, v],
        }
    }
}

/// Decoding the encoding of a command gives the command back.
pub proof fn lemma_decode_encode(cmd: Command)
    ensures
        spec_decode(cmd.spec_encode()) == Ok::<Command, DecodeError>(cmd),
{
    let bytes = cmd.spec_encode();
    assert(bytes.drop_first() =~= bytes.subrange(1, bytes.len() as int));
}

/// Where bytes decode to a command, encoding that command gives the same
/// bytes back: no two byte strings decode to one command.
pub proof fn lemma_encode_decode(bytes: Seq<u8>)
    requires
        spec_decode(bytes) is Ok,
    ensures
        spec_decode(bytes)->Ok_0.spec_encode() == bytes,
{
    let cmd = spec_decode(bytes)->Ok_0;
    assert(cmd.spec_encode() =~= bytes);
}

/// The first byte of an encoded command is its id.
pub proof fn lemma_encode_starts_with_id(cmd: Command)
    ensures
        cmd.spec_encode().len() >= 1,
        cmd.spec_encode()[0] == cmd.spec_id(),
{
}

/// The wire table: `00` is LedOff, `01` is LedOn, `02 R G B` is SetColor with
/// exactly those channel bytes, `03 V` is SetBrightness with exactly that
/// level; each command encodes to the same bytes it decodes from.
pub proof fn lemma_wire_table(r: u8, g: u8, b: u8, v: u8)
    ensures
        spec_decode(seq![0x00u8]) == Ok::<Command, DecodeError>(Command::LedOff),
        spec_decode(seq![0x01u8]) == Ok::<Command, DecodeError>(Command::LedOn),
        spec_decode(seq![0x02u8, r, g, b]) == Ok::<Command, DecodeError>(Command::SetColor { r, g, b }),
        spec_decode(seq![0x03u8, v]) == Ok::<Command, DecodeError>(Command::SetBrightness(v)),
        Command::LedOff.spec_encode() == seq![0x00u8],
        Command::LedOn.spec_encode() == seq![0x01u8],
        (Command::SetColor { r, g, b }).spec_encode() == seq![0x02u8, r, g, b],
        Command::SetBrightness(v).spec_encode() == seq![0x03u8, v],
{
    assert(seq![0x00u8].drop_first() =~= Seq::<u8>::empty());
    assert(seq![0x01u8].drop_first() =~= Seq::<u8>::empty());
    assert(seq![0x02u8, r, g, b].drop_first() =~= seq![r, g, b]);
    assert(seq![0x03u8, v].drop_first() =~= seq![v]);
}

/// A decoded command carries the payload bytes themselves: the color of a
/// SetColor is bytes 1..4 and the level of a SetBrightness is byte 1.
pub proof fn lemma_decoded_fields_are_payload(bytes: Seq<u8>)
    ensures
        spec_decode(bytes) matches Ok(Command::SetColor { r, g, b }) ==> bytes.len() == 4
            && bytes[0] == 0x02 && r == bytes[1] && g == bytes[2] && b == bytes[3],
        spec_decode(bytes) matches Ok(Command::SetBrightness(v)) ==> bytes.len() == 2
            && bytes[0] == 0x03 && v == bytes[1],
        spec_decode(bytes) matches Ok(Command::LedOff) ==> bytes == seq![0x00u8],
        spec_decode(bytes) matches Ok(Command::LedOn) ==> bytes == seq![0x01u8],
{
    if spec_decode(bytes) is Ok {
        assert(bytes =~= seq![bytes[0]] + bytes.drop_first());
        if bytes.len() == 1 {
            assert(bytes =~= seq![bytes[0]]);
        }
    }
}

/// How decoding fails: an empty write is `Empty`; an id above 3 is
/// `UnknownId` of that id, whatever follows; a known id with a payload of the
/// wrong length is `BadLength` with the id, the length its command needs
/// (0, 0, 3, 1 for ids 0 to 3) and the length that came.
pub proof fn lemma_decode_errors(bytes: Seq<u8>)
    ensures
        bytes.len() == 0 ==> spec_decode(bytes) == Err::<Command, DecodeError>(DecodeError::Empty),
        bytes.len() > 0 && bytes[0] > 3 ==> spec_decode(bytes) == Err::<Command, DecodeError>(
            DecodeError::UnknownId(bytes[0])),
        bytes.len() > 0 && bytes[0] <= 1 && bytes.len() != 1 ==> spec_decode(bytes)
            == Err::<Command, DecodeError>(DecodeError::BadLength {
            id: bytes[0],
            expected: 0,
            got: (bytes.len() - 1) as usize,
        }),
        bytes.len() > 0 && bytes[0] == 2 && bytes.len() != 4 ==> spec_decode(bytes)
            == Err::<Command, DecodeError>(DecodeError::BadLength {
            id: 2,
            expected: 3,
            got: (bytes.len() - 1) as usize,
        }),
        bytes.len() > 0 && bytes[0] == 3 && bytes.len() != 2 ==> spec_decode(bytes)
            == Err::<Command, DecodeError>(DecodeError::BadLength {
            id: 3,
            expected: 1,
            got: (bytes.len() - 1) as usize,
        }),
        bytes.len() > 0 && bytes[0] <= 3 && (spec_decode(bytes) is Err) ==> spec_decode(bytes)->Err_0 is BadLength,
{
}

/// The messages: an empty write, an unknown id in two hex digits, and a bad
/// length naming the id, the needed and the received payload lengths, each
/// of which reads back as its number.
pub proof fn lemma_decode_error_messages(id: u8, expected: usize, got: usize)
    ensures
        DecodeError::Empty.spec_message() == "empty command (need at least the id byte)"@,
        DecodeError::UnknownId(id).spec_message() == "unknown command id 0x"@ + hex_byte(id),
        (DecodeError::BadLength { id, expected, got }).spec_message() == "command 0x"@
            + hex_byte(id) + ": expected "@ + decimal(expected as nat)
            + " payload byte(s), got "@ + decimal(got as nat),
        hex_value(hex_byte(id)) == id,
        decimal_value(decimal(expected as nat)) == expected,
        decimal_value(decimal(got as nat)) == got,
{
    lemma_hex_byte_value(id);
    lemma_decimal_value(expected as nat);
    lemma_decimal_value(got as nat);
}

impl DecodeError {
    /// The human-readable description of the error.
    pub open spec fn spec_message(self) -> Seq<char> {
        match self {
            DecodeError::Empty => "empty command (need at least the id byte)"@,
            DecodeError::UnknownId(id) => "unknown command id 0x"@ + hex_byte(id),
            DecodeError::BadLength { id, expected, got } => "command 0x"@ + hex_byte(id)
                + ": expected "@ + decimal(expected as nat) + " payload byte(s), got "@
                + decimal(got as nat),
        }
    }

    /// The human-readable description of the error, e.g.
    /// `"command 0x02: expected 3 payload byte(s), got 1"`.
    pub fn message(&self) -> (res: String)
        ensures
            res@ == self.spec_message(),
    {
        match *self {
            DecodeError::Empty => String::from_str("empty command (need at least the id byte)"),
            DecodeError::UnknownId(id) => {
                let mut s = String::from_str("unknown command id 0x");
                push_hex_byte(&mut s, id);
                s
            },
            DecodeError::BadLength { id, expected, got } => {
                let mut s = String::from_str("command 0x");
                push_hex_byte(&mut s, id);
                s.append(": expected ");
                push_decimal(&mut s, expected as u64);
                s.append(" payload byte(s), got ");
                push_decimal(&mut s, got as u64);
                s
            },
        }
    }
}

} // verus!
