use crate::ir::Button;
use smart_leds::colors;
use vstd::prelude::*;

verus! {

/// A color with four 8-bit channels: red, green, blue and white.
#[derive(Copy, Clone, PartialEq, Eq, Structural, Debug, Hash, Default)]
pub struct RGBW8 {
    pub r: u8,
    pub g: u8,
    pub b: u8,
    pub w: u8,
}

/// All four channels dark.
pub open spec fn color_off() -> RGBW8 {
    RGBW8 { r: 0, g: 0, b: 0, w: 0 }
}

/// One unit of `c` toward `d`, or `c` itself where they are equal.
pub open spec fn channel_step_toward(c: u8, d: u8) -> u8 {
    if c < d {
        (c + 1) as u8
    } else if c > d {
        (c - 1) as u8
    } else {
        c
    }
}

/// One unit of `c` toward zero, staying at zero.
pub open spec fn channel_step_down(c: u8) -> u8 {
    if c > 0 {
        (c - 1) as u8
    } else {
        0
    }
}

/// Each channel of `c` moved one unit toward the same channel of `d`.
pub open spec fn stepped_toward(c: RGBW8, d: RGBW8) -> RGBW8 {
    RGBW8 {
        r: channel_step_toward(c.r, d.r),
        g: channel_step_toward(c.g, d.g),
        b: channel_step_toward(c.b, d.b),
        w: channel_step_toward(c.w, d.w),
    }
}

/// Each channel of `c` moved one unit toward zero.
pub open spec fn stepped_down(c: RGBW8) -> RGBW8 {
    RGBW8 {
        r: channel_step_down(c.r),
        g: channel_step_down(c.g),
        b: channel_step_down(c.b),
        w: channel_step_down(c.w),
    }
}

/// `n` lies between `c` and `d` (inclusive) and at most one unit from `c`.
pub open spec fn channel_within_one_step(c: u8, d: u8, n: u8) -> bool {
    &&& (c <= d ==> c <= n <= d)
    &&& (d <= c ==> d <= n <= c)
    &&& -1 <= n - c <= 1
}

/// Every channel of `n` lies between `c` and `d`, at most one unit from `c`.
pub open spec fn within_one_step(c: RGBW8, d: RGBW8, n: RGBW8) -> bool {
    &&& channel_within_one_step(c.r, d.r, n.r)
    &&& channel_within_one_step(c.g, d.g, n.g)
    &&& channel_within_one_step(c.b, d.b, n.b)
    &&& channel_within_one_step(c.w, d.w, n.w)
}

fn channel_toward(c: u8, d: u8) -> (r: u8)
    ensures
        r == channel_step_toward(c, d),
{
    if c > d {
        c - 1
    } else if c < d {
        c + 1
    } else {
        c
    }
}

impl RGBW8 {
    pub fn new(r: u8, g: u8, b: u8, w: u8) -> (c: RGBW8)
        ensures
            c == (RGBW8 { r, g, b, w }),
    {
        RGBW8 { r, g, b, w }
    }

    /// The dark color.
    pub fn off() -> (c: RGBW8)
        ensures
            c == color_off(),
    {
        RGBW8 { r: 0, g: 0, b: 0, w: 0 }
    }
}

/// Fading a color out to dark.
pub trait FadeOffRgbw {
    /// Turns every channel dark.
    fn set_off(&mut self);

    /// Whether every channel is dark.
    fn is_off(&self) -> bool;

    /// Moves every channel one unit toward dark.
    fn step_down(&mut self);
}

impl FadeOffRgbw for RGBW8 {
    fn set_off(&mut self)
        ensures
            *final(self) == color_off(),
    {
        self.r = 0;
        self.g = 0;
        self.b = 0;
        self.w = 0;
    }

    fn is_off(&self) -> (r: bool)
        ensures
            r == (*self == color_off()),
    {
        self.r == 0 && self.g == 0 && self.b == 0 && self.w == 0
    }

    fn step_down(&mut self)
        ensures
            *final(self) == stepped_down(*old(self)),
    {
        self.r = self.r.saturating_sub(1);
        self.g = self.g.saturating_sub(1);
        self.b = self.b.saturating_sub(1);
        self.w = self.w.saturating_sub(1);
    }
}

/// Fading a color toward a destination color.
pub trait FadeToRgbw {
    /// Whether the color equals `destination` on every channel.
    fn destination_reached(&self, destination: &RGBW8) -> bool;

    /// Moves every channel one unit toward `destination`.
    fn step_to(&mut self, destination: &RGBW8);
}

impl FadeToRgbw for RGBW8 {
    fn destination_reached(&self, destination: &RGBW8) -> (r: bool)
        ensures
            r == (*self == *destination),
    {
        *self == *destination
    }

    fn step_to(&mut self, destination: &RGBW8)
        ensures
            *final(self) == stepped_toward(*old(self), *destination),
    {
        self.r = channel_toward(self.r, destination.r);
        self.g = channel_toward(self.g, destination.g);
        self.b = channel_toward(self.b, destination.b);
        self.w = channel_toward(self.w, destination.w);
    }
}

/// The curated palette of named colors that the cycling modes draw from.
#[derive(Copy, Clone, PartialEq, Eq, Structural, Debug, Hash, PartialOrd, Ord)]
pub enum BasicColor {
    Red,
    Tomato,
    DarkOrange,
    Orange,
    Yellow,
    Green,
    GreenYellow,
    DarkOliveGreen,
    DarkSeaGreen,
    LightGreen,
    Blue,
    SkyBlue,
    Violet,
    PaleVioletRed,
    Magenta,
}

/// The palette in its fixed order.
pub open spec fn palette() -> Seq<BasicColor> {
    seq![
        BasicColor::Red,
        BasicColor::Tomato,
        BasicColor::DarkOrange,
        BasicColor::Orange,
        BasicColor::Yellow,
        BasicColor::Green,
        BasicColor::GreenYellow,
        BasicColor::DarkOliveGreen,
        BasicColor::DarkSeaGreen,
        BasicColor::LightGreen,
        BasicColor::Blue,
        BasicColor::SkyBlue,
        BasicColor::Violet,
        BasicColor::PaleVioletRed,
        BasicColor::Magenta,
    ]
}

/// The red, green and blue channels of a palette color (the named web colors).
pub open spec fn basic_rgb(c: BasicColor) -> (u8, u8, u8) {
    match c {
        BasicColor::Red => (0xFF, 0x00, 0x00),
        BasicColor::Tomato => (0xFF, 0x63, 0x47),
        BasicColor::DarkOrange => (0xFF, 0x8C, 0x00),
        BasicColor::Orange => (0xFF, 0xA5, 0x00),
        BasicColor::Yellow => (0xFF, 0xFF, 0x00),
        BasicColor::Green => (0x00, 0x80, 0x00),
        BasicColor::GreenYellow => (0xAD, 0xFF, 0x2F),
        BasicColor::DarkOliveGreen => (0x55, 0x6B, 0x2F),
        BasicColor::DarkSeaGreen => (0x8F, 0xBC, 0x8F),
        BasicColor::LightGreen => (0x90, 0xEE, 0x90),
        BasicColor::Blue => (0x00, 0x00, 0xFF),
        BasicColor::SkyBlue => (0x87, 0xCE, 0xEB),
        BasicColor::Violet => (0xEE, 0x82, 0xEE),
        BasicColor::PaleVioletRed => (0xDB, 0x70, 0x93),
        BasicColor::Magenta => (0xFF, 0x00, 0xFF),
    }
}

/// A palette color as a four-channel color, with the white channel dark.
pub open spec fn basic_rgbw(c: BasicColor) -> RGBW8 {
    RGBW8 { r: basic_rgb(c).0, g: basic_rgb(c).1, b: basic_rgb(c).2, w: 0 }
}

/// Whether `c` is one of the palette's colors.
pub open spec fn is_palette_rgbw(c: RGBW8) -> bool {
    exists|b: BasicColor| basic_rgbw(b) == c
}

/// The palette color that a color button selects, if any.
pub open spec fn button_basic_color(b: Button) -> Option<BasicColor> {
    match b {
        Button::Red => Some(BasicColor::Red),
        Button::Red1 => Some(BasicColor::Tomato),
        Button::Red2 => Some(BasicColor::DarkOrange),
        Button::Red3 => Some(BasicColor::Orange),
        Button::Red4 => Some(BasicColor::Yellow),
        Button::Green => Some(BasicColor::Green),
        Button::Green1 => Some(BasicColor::GreenYellow),
        Button::Green2 => Some(BasicColor::DarkOliveGreen),
        Button::Green3 => Some(BasicColor::DarkSeaGreen),
        Button::Green4 => Some(BasicColor::LightGreen),
        Button::Blue => Some(BasicColor::Blue),
        Button::Blue1 => Some(BasicColor::SkyBlue),
        Button::Blue2 => Some(BasicColor::Violet),
        Button::Blue3 => Some(BasicColor::PaleVioletRed),
        Button::Blue4 => Some(BasicColor::Magenta),
        _ => None,
    }
}

/// Relies on smart_leds::colors::RED for its channels.
#[verifier::external_body]
fn web_red() -> (r: (u8, u8, u8))
    ensures
        r == (0xFFu8, 0x00u8, 0x00u8),
{
    let c = colors::RED;
    (c.r, c.g, c.b)
}

/// Relies on smart_leds::colors::TOMATO for its channels.
#[verifier::external_body]
fn web_tomato() -> (r: (u8, u8, u8))
    ensures
        r == (0xFFu8, 0x63u8, 0x47u8),
{
    let c = colors::TOMATO;
    (c.r, c.g, c.b)
}

/// Relies on smart_leds::colors::DARK_ORANGE for its channels.
#[verifier::external_body]
fn web_dark_orange() -> (r: (u8, u8, u8))
    ensures
        r == (0xFFu8, 0x8Cu8, 0x00u8),
{
    let c = colors::DARK_ORANGE;
    (c.r, c.g, c.b)
}

/// Relies on smart_leds::colors::ORANGE for its channels.
#[verifier::external_body]
fn web_orange() -> (r: (u8, u8, u8))
    ensures
        r == (0xFFu8, 0xA5u8, 0x00u8),
{
    let c = colors::ORANGE;
    (c.r, c.g, c.b)
}

/// Relies on smart_leds::colors::YELLOW for its channels.
#[verifier::external_body]
fn web_yellow() -> (r: (u8, u8, u8))
    ensures
        r == (0xFFu8, 0xFFu8, 0x00u8),
{
    let c = colors::YELLOW;
    (c.r, c.g, c.b)
}

/// Relies on smart_leds::colors::GREEN for its channels.
#[verifier::external_body]
fn web_green() -> (r: (u8, u8, u8))
    ensures
        r == (0x00u8, 0x80u8, 0x00u8),
{
    let c = colors::GREEN;
    (c.r, c.g, c.b)
}

/// Relies on smart_leds::colors::GREEN_YELLOW for its channels.
#[verifier::external_body]
fn web_green_yellow() -> (r: (u8, u8, u8))
    ensures
        r == (0xADu8, 0xFFu8, 0x2Fu8),
{
    let c = colors::GREEN_YELLOW;
    (c.r, c.g, c.b)
}

/// Relies on smart_leds::colors::DARK_OLIVE_GREEN for its channels.
#[verifier::external_body]
fn web_dark_olive_green() -> (r: (u8, u8, u8))
    ensures
        r == (0x55u8, 0x6Bu8, 0x2Fu8),
{
    let c = colors::DARK_OLIVE_GREEN;
    (c.r, c.g, c.b)
}

/// Relies on smart_leds::colors::DARK_SEA_GREEN for its channels.
#[verifier::external_body]
fn web_dark_sea_green() -> (r: (u8, u8, u8))
    ensures
        r == (0x8Fu8, 0xBCu8, 0x8Fu8),
{
    let c = colors::DARK_SEA_GREEN;
    (c.r, c.g, c.b)
}

/// Relies on smart_leds::colors::LIGHT_GREEN for its channels.
#[verifier::external_body]
fn web_light_green() -> (r: (u8, u8, u8))
    ensures
        r == (0x90u8, 0xEEu8, 0x90u8),
{
    let c = colors::LIGHT_GREEN;
    (c.r, c.g, c.b)
}

/// Relies on smart_leds::colors::BLUE for its channels.
#[verifier::external_body]
fn web_blue() -> (r: (u8, u8, u8))
    ensures
        r == (0x00u8, 0x00u8, 0xFFu8),
{
    let c = colors::BLUE;
    (c.r, c.g, c.b)
}

/// Relies on smart_leds::colors::SKY_BLUE for its channels.
#[verifier::external_body]
fn web_sky_blue() -> (r: (u8, u8, u8))
    ensures
        r == (0x87u8, 0xCEu8, 0xEBu8),
{
    let c = colors::SKY_BLUE;
    (c.r, c.g, c.b)
}

/// Relies on smart_leds::colors::VIOLET for its channels.
#[verifier::external_body]
fn web_violet() -> (r: (u8, u8, u8))
    ensures
        r == (0xEEu8, 0x82u8, 0xEEu8),
{
    let c = colors::VIOLET;
    (c.r, c.g, c.b)
}

/// Relies on smart_leds::colors::PALE_VIOLET_RED for its channels.
#[verifier::external_body]
fn web_pale_violet_red() -> (r: (u8, u8, u8))
    ensures
        r == (0xDBu8, 0x70u8, 0x93u8),
{
    let c = colors::PALE_VIOLET_RED;
    (c.r, c.g, c.b)
}

/// Relies on smart_leds::colors::MAGENTA for its channels.
#[verifier::external_body]
fn web_magenta() -> (r: (u8, u8, u8))
    ensures
        r == (0xFFu8, 0x00u8, 0xFFu8),
{
    let c = colors::MAGENTA;
    (c.r, c.g, c.b)
}

impl BasicColor {
    /// Every palette color, in the palette's order.
    pub fn enumerate() -> (r: &'static [BasicColor])
        ensures
            r@ == palette(),
    {
        let r: &'static [BasicColor] = &[
            BasicColor::Red,
            BasicColor::Tomato,
            BasicColor::DarkOrange,
            BasicColor::Orange,
            BasicColor::Yellow,
            BasicColor::Green,
            BasicColor::GreenYellow,
            BasicColor::DarkOliveGreen,
            BasicColor::DarkSeaGreen,
            BasicColor::LightGreen,
            BasicColor::Blue,
            BasicColor::SkyBlue,
            BasicColor::Violet,
            BasicColor::PaleVioletRed,
            BasicColor::Magenta,
        ];
        r
    }

    /// This palette color as a four-channel color with the white channel dark.
    pub fn as_rgbw(self) -> (r: RGBW8)
        ensures
            r == basic_rgbw(self),
    {
        let (r, g, b) = match self {
            BasicColor::Red => web_red(),
            BasicColor::Tomato => web_tomato(),
            BasicColor::DarkOrange => web_dark_orange(),
            BasicColor::Orange => web_orange(),
            BasicColor::Yellow => web_yellow(),
            BasicColor::Green => web_green(),
            BasicColor::GreenYellow => web_green_yellow(),
            BasicColor::DarkOliveGreen => web_dark_olive_green(),
            BasicColor::DarkSeaGreen => web_dark_sea_green(),
            BasicColor::LightGreen => web_light_green(),
            BasicColor::Blue => web_blue(),
            BasicColor::SkyBlue => web_sky_blue(),
            BasicColor::Violet => web_violet(),
            BasicColor::PaleVioletRed => web_pale_violet_red(),
            BasicColor::Magenta => web_magenta(),
        };
        RGBW8 { r, g, b, w: 0 }
    }

    /// The palette color that a color button selects; `None` for other buttons.
    pub fn from_button(b: Button) -> (r: Option<BasicColor>)
        ensures
            r == button_basic_color(b),
    {
        match b {
            Button::Red => Some(BasicColor::Red),
            Button::Red1 => Some(BasicColor::Tomato),
            Button::Red2 => Some(BasicColor::DarkOrange),
            Button::Red3 => Some(BasicColor::Orange),
            Button::Red4 => Some(BasicColor::Yellow),
            Button::Green => Some(BasicColor::Green),
            Button::Green1 => Some(BasicColor::GreenYellow),
            Button::Green2 => Some(BasicColor::DarkOliveGreen),
            Button::Green3 => Some(BasicColor::DarkSeaGreen),
            Button::Green4 => Some(BasicColor::LightGreen),
            Button::Blue => Some(BasicColor::Blue),
            Button::Blue1 => Some(BasicColor::SkyBlue),
            Button::Blue2 => Some(BasicColor::Violet),
            Button::Blue3 => Some(BasicColor::PaleVioletRed),
            Button::Blue4 => Some(BasicColor::Magenta),
            _ => None,
        }
    }
}

/// The generator state, `(state, increment)`, that oorandom's `Rand32::new`
/// starts from for a seed.
pub uninterp spec fn rand32_seeded(seed: u64) -> (u64, u64);

/// What oorandom's `Rand32::rand_range` returns from a generator in `state`
/// for the range `start..end`, and the state it leaves the generator in.
pub uninterp spec fn rand32_range(state: (u64, u64), start: u32, end: u32) -> (u32, (u64, u64));

/// Relies on oorandom::Rand32::new (read back with Rand32::state): the state
/// depends on the seed alone.
#[verifier::external_body]
fn seeded_state(seed: u64) -> (r: (u64, u64))
    ensures
        r == rand32_seeded(seed),
{
    oorandom::Rand32::new(seed).state()
}

/// Relies on oorandom::Rand32::rand_range (on a generator rebuilt with
/// Rand32::from_state, read back with Rand32::state): the draw and the next
/// state depend on the state and the range alone, and for a non-empty range
/// the draw lies in it.
#[verifier::external_body]
fn range_from_state(state: (u64, u64), start: u32, end: u32) -> (r: (u32, (u64, u64)))
    requires
        start < end,
    ensures
        r == rand32_range(state, start, end),
        start <= r.0 < end,
{
    let mut rng = oorandom::Rand32::from_state(state);
    let v = rng.rand_range(start..end);
    (v, rng.state())
}

/// A color drawn from generator state `s` (red, green, blue in turn, white
/// dark), and the state after.
pub open spec fn rgb_draw(s: (u64, u64)) -> (RGBW8, (u64, u64)) {
    let (r, s1) = rand32_range(s, 0, 256);
    let (g, s2) = rand32_range(s1, 0, 256);
    let (b, s3) = rand32_range(s2, 0, 256);
    (RGBW8 { r: r as u8, g: g as u8, b: b as u8, w: 0 }, s3)
}

/// A palette color drawn from generator state `s`, and the state after.
pub open spec fn palette_draw(s: (u64, u64)) -> (BasicColor, (u64, u64)) {
    let (i, s1) = rand32_range(s, 0, 15);
    (palette()[i as int], s1)
}

/// How many draws the distinct-color choices reject before falling back to a
/// fixed change of the rejected draw.
pub const MAX_DRAWS: u32 = 8;

/// Pseudo-random color choices, seeded from the clock: a PCG generator held
/// by its state, so that the same seed gives the same colors.
pub struct RandomColorGen {
    state: (u64, u64),
}

impl View for RandomColorGen {
    type V = (u64, u64);

    closed spec fn view(&self) -> (u64, u64) {
        self.state
    }
}

impl RandomColorGen {
    pub fn new(seed: u64) -> (r: RandomColorGen)
        ensures
            r@ == rand32_seeded(seed),
    {
        RandomColorGen { state: seeded_state(seed) }
    }

    fn draw(&mut self, start: u32, end: u32) -> (r: u32)
        requires
            start < end,
        ensures
            r == rand32_range(old(self)@, start, end).0,
            final(self)@ == rand32_range(old(self)@, start, end).1,
            start <= r < end,
    {
        let (v, next) = range_from_state(self.state, start, end);
        self.state = next;
        v
    }

    /// A pseudo-random color on the red, green and blue channels, white dark.
    pub fn rand_rgb(&mut self) -> (c: RGBW8)
        ensures
            c == rgb_draw(old(self)@).0,
            final(self)@ == rgb_draw(old(self)@).1,
            c.w == 0,
    {
        let r = self.draw(0, 256) as u8;
        let g = self.draw(0, 256) as u8;
        let b = self.draw(0, 256) as u8;
        RGBW8 { r, g, b, w: 0 }
    }

    /// A pseudo-random palette color.
    pub fn rand_color(&mut self) -> (c: BasicColor)
        ensures
            c == palette_draw(old(self)@).0,
            final(self)@ == palette_draw(old(self)@).1,
    {
        let colors = BasicColor::enumerate();
        let i = self.draw(0, 15) as usize;
        colors[i]
    }

    /// A pseudo-random color on the red, green and blue channels that differs
    /// from `current`: draws are rejected while they equal it.
    pub fn next_rgb_distinct_from(&mut self, current: RGBW8) -> (c: RGBW8)
        ensures
            c != current,
            c.w == 0,
    {
        let mut draws: u32 = 1;
        let mut next = self.rand_rgb();
        while next == current && draws < MAX_DRAWS
            invariant
                next.w == 0,
                draws <= MAX_DRAWS,
            decreases MAX_DRAWS - draws,
        {
            next = self.rand_rgb();
            draws = draws + 1;
        }
        if next == current {
            next.r = if next.r >= 128 { next.r - 128 } else { next.r + 128 };
        }
        next
    }

    /// A pseudo-random palette color whose four-channel color differs from
    /// `current`: draws are rejected while they equal it.
    pub fn next_color_distinct_from(&mut self, current: RGBW8) -> (c: BasicColor)
        ensures
            basic_rgbw(c) != current,
    {
        let mut draws: u32 = 1;
        let mut next = self.rand_color();
        while next.as_rgbw() == current && draws < MAX_DRAWS
            invariant
                draws <= MAX_DRAWS,
            decreases MAX_DRAWS - draws,
        {
            next = self.rand_color();
            draws = draws + 1;
        }
        if next.as_rgbw() == current {
            next = if next == BasicColor::Red { BasicColor::Blue } else { BasicColor::Red };
        }
        next
    }
}

/// The pixel sink of the LED strip: shows one color on every LED. Writes are
/// fire-and-forget; a failing write is the driver's own concern.
pub trait InfallibleLedDriver {
    /// Shows `color` on every LED.
    fn set_pixels(&mut self, color: &RGBW8);

    /// Turns every LED dark.
    fn set_off(&mut self) {
        let off = RGBW8::off();
        self.set_pixels(&off);
    }
}

/// A driver together with a record of what was sent to it: the colors
/// written, oldest first. Turning the strip off is a write of the dark color.
pub struct LedOutput<LED> {
    driver: LED,
    sent: Ghost<Seq<RGBW8>>,
}

impl<LED: InfallibleLedDriver> LedOutput<LED> {
    /// The colors written through this output, oldest first.
    pub closed spec fn sent(&self) -> Seq<RGBW8> {
        self.sent@
    }

    /// An output over `driver` with nothing written yet.
    pub fn new(driver: LED) -> (r: LedOutput<LED>)
        ensures
            r.sent() == Seq::<RGBW8>::empty(),
    {
        LedOutput { driver, sent: Ghost(Seq::empty()) }
    }

    /// Shows `color` on every LED.
    pub fn set_pixels(&mut self, color: &RGBW8)
        ensures
            final(self).sent() == old(self).sent().push(*color),
    {
        self.driver.set_pixels(color);
        self.sent = Ghost(self.sent@.push(*color));
    }

    /// Turns every LED dark.
    pub fn set_off(&mut self)
        ensures
            final(self).sent() == old(self).sent().push(color_off()),
    {
        self.driver.set_off();
        self.sent = Ghost(self.sent@.push(color_off()));
    }
}

/// A dark color stays dark when stepped down.
pub proof fn lemma_off_is_absorbing(c: RGBW8)
    requires
        c == color_off(),
    ensures
        stepped_down(c) == c,
{
}

/// One step toward a destination moves each channel by at most one unit and
/// never past the destination; it changes the color unless the destination
/// was already reached, and leaves a reached destination unchanged.
pub proof fn lemma_step_is_bounded(c: RGBW8, d: RGBW8)
    ensures
        within_one_step(c, d, stepped_toward(c, d)),
        stepped_toward(c, d) == c <==> c == d,
{
}

/// Stepping down is stepping toward dark.
pub proof fn lemma_step_down_is_step_toward_off(c: RGBW8)
    ensures
        stepped_down(c) == stepped_toward(c, color_off()),
{
}

} // verus!
