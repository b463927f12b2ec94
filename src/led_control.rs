use crate::led::{color_off, RGBW8};
use vstd::prelude::*;

verus! {

/// LEDs on the strip that the brightness-aware controller drives.
pub const NUM_LEDS: usize = 12;

/// Failure of a write to the strip.
#[derive(Copy, Clone, PartialEq, Eq, Structural, Debug, Hash, PartialOrd, Ord)]
pub enum Error {
    HwSpi,
}

/// A channel dimmed to `brightness`: full brightness (255) keeps it as it is.
pub open spec fn scale_channel(c: u8, brightness: u8) -> u8 {
    (c * (brightness + 1) / 256) as u8
}

/// A color dimmed to `brightness`, channel by channel.
pub open spec fn scaled(p: RGBW8, brightness: u8) -> RGBW8 {
    RGBW8 {
        r: scale_channel(p.r, brightness),
        g: scale_channel(p.g, brightness),
        b: scale_channel(p.b, brightness),
        w: scale_channel(p.w, brightness),
    }
}

/// What the controller holds: its brightness and the color of each LED.
pub struct LedFrame {
    pub brightness: u8,
    pub pixels: Seq<RGBW8>,
}

fn dim_channel(c: u8, brightness: u8) -> (r: u8)
    ensures
        r == scale_channel(c, brightness),
{
    assert(c * (brightness + 1) <= 255 * 256) by (nonlinear_arith)
        requires
            c <= 255,
            brightness <= 255,
    ;
    assert(c * (brightness + 1) / 256 <= 255) by (nonlinear_arith)
        requires
            c * (brightness + 1) <= 255 * 256,
            c * (brightness + 1) >= 0,
    ;
    ((c as u16) * (brightness as u16 + 1) / 256) as u8
}

/// `p` dimmed to `brightness`.
fn dim(p: RGBW8, brightness: u8) -> (r: RGBW8)
    ensures
        r == scaled(p, brightness),
{
    RGBW8 {
        r: dim_channel(p.r, brightness),
        g: dim_channel(p.g, brightness),
        b: dim_channel(p.b, brightness),
        w: dim_channel(p.w, brightness),
    }
}

/// Every LED of the strip set to one color, shown at an adjustable brightness.
pub struct LedController {
    brightness: u8,
    pixels: [RGBW8; NUM_LEDS],
}

impl View for LedController {
    type V = LedFrame;

    closed spec fn view(&self) -> LedFrame {
        LedFrame { brightness: self.brightness, pixels: self.pixels@ }
    }
}

impl LedController {
    /// A dark strip at full brightness.
    pub fn new() -> (r: LedController)
        ensures
            r@.brightness == 255,
            r@.pixels == Seq::new(NUM_LEDS as nat, |i: int| color_off()),
    {
        let r = LedController { brightness: 255, pixels: [RGBW8::off(); NUM_LEDS] };
        assert(r@.pixels =~= Seq::new(NUM_LEDS as nat, |i: int| color_off()));
        r
    }

    pub fn set_max_brightness(&mut self)
        ensures
            final(self)@.brightness == 255,
            final(self)@.pixels == old(self)@.pixels,
    {
        self.brightness = 255;
    }

    /// One unit brighter, staying at 255.
    pub fn increase_brightness(&mut self)
        ensures
            final(self)@.brightness == (if old(self)@.brightness < 255 {
                old(self)@.brightness + 1
            } else {
                255
            }),
            final(self)@.pixels == old(self)@.pixels,
    {
        self.brightness = self.brightness.saturating_add(1);
    }

    /// One unit dimmer, staying at 0.
    pub fn decrease_brightness(&mut self)
        ensures
            final(self)@.brightness == (if old(self)@.brightness > 0 {
                old(self)@.brightness - 1
            } else {
                0
            }),
            final(self)@.pixels == old(self)@.pixels,
    {
        self.brightness = self.brightness.saturating_sub(1);
    }

    /// The current brightness.
    pub fn brightness(&self) -> (r: u8)
        ensures
            r == self@.brightness,
    {
        self.brightness
    }

    /// Sets every LED to `color`.
    pub fn set_all(&mut self, color: RGBW8)
        ensures
            final(self)@.pixels == Seq::new(NUM_LEDS as nat, |i: int| color),
            final(self)@.brightness == old(self)@.brightness,
    {
        self.pixels = [color; NUM_LEDS];
        assert(self@.pixels =~= Seq::new(NUM_LEDS as nat, |i: int| color));
    }

    /// Turns every LED dark.
    pub fn set_all_off(&mut self)
        ensures
            final(self)@.pixels == Seq::new(NUM_LEDS as nat, |i: int| color_off()),
            final(self)@.brightness == old(self)@.brightness,
    {
        self.set_all(RGBW8::off());
    }

    /// The colors to write to the strip: each LED's color dimmed to the
    /// brightness.
    pub fn scaled_pixels(&self) -> (r: [RGBW8; NUM_LEDS])
        ensures
            r@ == self@.pixels.map_values(|p: RGBW8| scaled(p, self@.brightness)),
    {
        let mut out = self.pixels;
        if self.brightness != 255 {
            let mut i: usize = 0;
            while i < NUM_LEDS
                invariant
                    i <= NUM_LEDS,
                    out@.len() == NUM_LEDS,
                    forall|j: int| 0 <= j < i ==> out@[j] == scaled(self.pixels@[j], self.brightness),
                    forall|j: int| i <= j < NUM_LEDS ==> out@[j] == self.pixels@[j],
                decreases NUM_LEDS - i,
            {
                out[i] = dim(out[i], self.brightness);
                i = i + 1;
            }
        } else {
            assert forall|c: u8| scale_channel(c, 255) == c by {
                assert(c * 256 / 256 == c) by (nonlinear_arith);
            }
        }
        assert(out@ =~= self@.pixels.map_values(|p: RGBW8| scaled(p, self@.brightness)));
        out
    }
}

} // verus!
