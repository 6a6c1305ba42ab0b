//! The state of the single onboard RGB LED and how commands change it: the
//! decisions of the BLE LED controller, apart from driving the pixel.
use vstd::prelude::*;

use crate::command::{spec_decode, Command, DecodeError};

verus! {

/// An RGB color, one byte per channel.
#[derive(Debug, Clone, Copy, PartialEq, Eq, Structural)]
pub struct Rgb {
    pub r: u8,
    pub g: u8,
    pub b: u8,
}

/// Black: the pixel of a dark LED.
pub open spec fn black() -> Rgb {
    Rgb { r: 0, g: 0, b: 0 }
}

/// White: the color of a fresh controller.
pub open spec fn white() -> Rgb {
    Rgb { r: 255, g: 255, b: 255 }
}

/// One channel `v` scaled by the brightness `b` (0..=255): `v * b / 255`,
/// rounded down.
pub open spec fn scale_channel(v: u8, b: u8) -> u8 {
    ((v as int * b as int) / 255) as u8
}

/// The color `c` scaled channel by channel by the brightness `b`.
pub open spec fn spec_scale(c: Rgb, b: u8) -> Rgb {
    Rgb { r: scale_channel(c.r, b), g: scale_channel(c.g, b), b: scale_channel(c.b, b) }
}

proof fn lemma_scale_channel_fits(v: u8, b: u8)
    ensures
        0 <= (v as int * b as int) / 255 <= v,
{
    assert(0 <= v as int * b as int <= v as int * 255) by (nonlinear_arith)
        requires
            v <= 255,
            b <= 255,
    ;
    assert((v as int * b as int) / 255 <= v) by (nonlinear_arith)
        requires
            0 <= v as int * b as int <= v as int * 255,
    ;
}

fn scale_channel_exec(v: u8, b: u8) -> (res: u8)
    ensures
        res == scale_channel(v, b),
        res as int == (v as int * b as int) / 255,
{
    proof {
        lemma_scale_channel_fits(v, b);
        assert(v as int * b as int <= 255 * 255) by (nonlinear_arith)
            requires
                v <= 255,
                b <= 255,
        ;
    }
    let prod: u32 = (v as u32) * (b as u32);
    (prod / 255) as u8
}

/// Scale an RGB color by a 0..=255 brightness.
pub fn scale(c: Rgb, b: u8) -> (res: Rgb)
    ensures
        res == spec_scale(c, b),
{
    Rgb { r: scale_channel_exec(c.r, b), g: scale_channel_exec(c.g, b), b: scale_channel_exec(c.b, b) }
}

/// The LED: whether it is on, its last color and its brightness.
#[derive(Debug, Clone, Copy, PartialEq, Eq, Structural)]
pub struct LedState {
    pub on: bool,
    pub color: Rgb,
    pub brightness: u8,
}

impl LedState {
    /// The state after `cmd`: off and on switch the LED and keep the color,
    /// a color also switches it on, a brightness changes nothing else.
    pub open spec fn applied(self, cmd: Command) -> LedState {
        match cmd {
            Command::LedOff => LedState { on: false, ..self },
            Command::LedOn => LedState { on: true, ..self },
            Command::SetColor { r, g, b } => LedState { on: true, color: Rgb { r, g, b }, ..self },
            Command::SetBrightness(v) => LedState { brightness: v, ..self },
        }
    }

    /// The pixel the LED shows: its color scaled by its brightness, or black
    /// while it is off.
    pub open spec fn spec_pixel(self) -> Rgb {
        if self.on {
            spec_scale(self.color, self.brightness)
        } else {
            black()
        }
    }

    /// The status reported to clients: `[on (0/1), r, g, b, brightness]`.
    pub open spec fn spec_state_bytes(self) -> Seq<u8> {
        seq![if self.on { 1u8 } else { 0u8 }, self.color.r, self.color.g, self.color.b, self.brightness]
    }

    /// A fresh LED: dark, white, full brightness.
    pub fn new() -> (res: Self)
        ensures
            res == (LedState { on: false, color: white(), brightness: 255 }),
    {
        LedState { on: false, color: Rgb { r: 255, g: 255, b: 255 }, brightness: 255 }
    }

    /// Apply a decoded command to the state.
    pub fn apply(&mut self, cmd: Command)
        ensures
            *final(self) == old(self).applied(cmd),
    {
        match cmd {
            Command::LedOff => self.on = false,
            Command::LedOn => self.on = true,
            Command::SetColor { r, g, b } => {
                self.color = Rgb { r, g, b };
                self.on = true;
            },
            Command::SetBrightness(v) => self.brightness = v,
        }
    }

    /// The pixel to write to the LED.
    pub fn pixel(&self) -> (res: Rgb)
        ensures
            res == self.spec_pixel(),
    {
        if self.on {
            scale(self.color, self.brightness)
        } else {
            Rgb { r: 0, g: 0, b: 0 }
        }
    }

    /// Status bytes reported over the BLE status characteristic:
    /// `[on(0/1), r, g, b, brightness]`.
    pub fn state_bytes(&self) -> (res: [u8; 5])
        ensures
            res@ == self.spec_state_bytes(),
            res[0] == (if self.on { 1u8 } else { 0u8 }),
            res[1] == self.color.r,
            res[2] == self.color.g,
            res[3] == self.color.b,
            res[4] == self.brightness,
    {
        let on: u8 = if self.on { 1 } else { 0 };
        let res = [on, self.color.r, self.color.g, self.color.b, self.brightness];
        assert(res@ =~= self.spec_state_bytes());
        res
    }

    /// Handle the bytes of one write to the command characteristic: a
    /// command that decodes is applied and the new status is returned; a
    /// malformed write leaves the state as it was and returns its error.
    pub fn handle_write(&mut self, bytes: &[u8]) -> (res: Result<[u8; 5], DecodeError>)
        ensures
            match spec_decode(bytes@) {
                Ok(cmd) => {
                    &&& *final(self) == old(self).applied(cmd)
                    &&& res matches Ok(status) && status@ == final(self).spec_state_bytes()
                },
                Err(e) => {
                    &&& *final(self) == *old(self)
                    &&& res == Err::<[u8; 5], DecodeError>(e)
                },
            },
    {
        match Command::decode(bytes) {
            Ok(cmd) => {
                self.apply(cmd);
                Ok(self.state_bytes())
            },
            Err(e) => Err(e),
        }
    }
}

/// Switching the LED off and on again brings back its last color and
/// brightness.
pub proof fn lemma_off_on_restores(s: LedState)
    ensures
        s.applied(Command::LedOff).applied(Command::LedOn) == (LedState { on: true, ..s }),
{
}

/// A brightness command changes neither whether the LED is on nor its color.
pub proof fn lemma_brightness_keeps_power_and_color(s: LedState, v: u8)
    ensures
        s.applied(Command::SetBrightness(v)).on == s.on,
        s.applied(Command::SetBrightness(v)).color == s.color,
        s.applied(Command::SetBrightness(v)).brightness == v,
{
}

/// A color command shows that color at the current brightness, whatever the
/// LED showed before.
pub proof fn lemma_set_color_shows_color(s: LedState, r: u8, g: u8, b: u8)
    ensures
        s.applied(Command::SetColor { r, g, b }).spec_pixel() == spec_scale(Rgb { r, g, b }, s.brightness),
{
}

/// An LED that is switched off shows black, whatever its color and brightness.
pub proof fn lemma_off_is_dark(s: LedState)
    ensures
        s.applied(Command::LedOff).spec_pixel() == black(),
{
}

/// Full brightness shows the color as it is.
pub proof fn lemma_scale_full(c: Rgb)
    ensures
        spec_scale(c, 255) == c,
{
    assert forall|v: u8| scale_channel(v, 255) == v by {
        assert((v as int * 255) / 255 == v as int) by (nonlinear_arith);
    }
    assert(scale_channel(c.r, 255) == c.r);
    assert(scale_channel(c.g, 255) == c.g);
    assert(scale_channel(c.b, 255) == c.b);
}

/// Zero brightness shows black.
pub proof fn lemma_scale_zero(c: Rgb)
    ensures
        spec_scale(c, 0) == black(),
{
}

/// Scaling never brightens a channel.
pub proof fn lemma_scale_dims(c: Rgb, b: u8)
    ensures
        spec_scale(c, b).r <= c.r,
        spec_scale(c, b).g <= c.g,
        spec_scale(c, b).b <= c.b,
{
    lemma_scale_channel_fits(c.r, b);
    lemma_scale_channel_fits(c.g, b);
    lemma_scale_channel_fits(c.b, b);
}

/// LedOn switches the LED on whatever it showed before, keeps its color and
/// brightness, and a second LedOn changes nothing.
pub proof fn lemma_on_switches_on(s: LedState)
    ensures
        s.applied(Command::LedOn).on,
        s.applied(Command::LedOn).color == s.color,
        s.applied(Command::LedOn).brightness == s.brightness,
        s.applied(Command::LedOn).applied(Command::LedOn) == s.applied(Command::LedOn),
        s.on ==> s.applied(Command::LedOn) == s,
        s.applied(Command::LedOn).spec_pixel() == spec_scale(s.color, s.brightness),
{
}

/// LedOff switches the LED off whatever it showed before, keeping color and
/// brightness.
pub proof fn lemma_off_switches_off(s: LedState)
    ensures
        !s.applied(Command::LedOff).on,
        s.applied(Command::LedOff).color == s.color,
        s.applied(Command::LedOff).brightness == s.brightness,
        !s.on ==> s.applied(Command::LedOff) == s,
{
}

/// The status bytes are the state's own fields: byte 0 is 1 exactly when the
/// LED is on (else 0), then red, green, blue and brightness.
pub proof fn lemma_state_bytes_fields(s: LedState)
    ensures
        s.spec_state_bytes().len() == 5,
        s.spec_state_bytes()[0] == 1 <==> s.on,
        s.spec_state_bytes()[0] == 0 <==> !s.on,
        s.spec_state_bytes()[1] == s.color.r,
        s.spec_state_bytes()[2] == s.color.g,
        s.spec_state_bytes()[3] == s.color.b,
        s.spec_state_bytes()[4] == s.brightness,
{
}

/// After a color write the status reports that color, on, at the unchanged
/// brightness.
pub proof fn lemma_color_write_reported(s: LedState, r: u8, g: u8, b: u8)
    ensures
        s.applied(Command::SetColor { r, g, b }).spec_state_bytes() == seq![1u8, r, g, b, s.brightness],
{
    assert(s.applied(Command::SetColor { r, g, b }).spec_state_bytes() =~= seq![1u8, r, g, b, s.brightness]);
}

} // verus!
