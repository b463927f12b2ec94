use crate::ir::{Button, IrCommand};
use crate::led::{
    basic_rgbw, button_basic_color, color_off, is_palette_rgbw, lemma_step_down_is_step_toward_off,
    lemma_step_is_bounded, rand32_seeded, stepped_down, stepped_toward, within_one_step,
    BasicColor, FadeOffRgbw, FadeToRgbw, InfallibleLedDriver, LedOutput, RandomColorGen, RGBW8,
};
use crate::system_clock::{elapsed_ms, Instant, SystemClock, ONE_MINUTE_MS, TEN_MINUTES_MS};
use vstd::prelude::*;

verus! {

/// How long the light stays on after an auto-on trigger.
pub const AUTO_ON_DURATION_MS: u32 = TEN_MINUTES_MS;

/// How long the light stays on after a remote command.
pub const MANUAL_ON_DURATION_MS: u32 = ONE_MINUTE_MS;

/// Step interval of the fades into and out of a fixed color.
pub const ONOFF_FADE_STEP_MS: u32 = 10;

pub const FLASH_MODE_STEP_MS: u32 = 5;

pub const STROBE_MODE_STEP_MS: u32 = 5;

pub const FADE_MODE_STEP_MS: u32 = 100;

pub const SMOOTH_MODE_STEP_MS: u32 = 50;

/// Why the light is on.
#[derive(Copy, Clone, PartialEq, Eq, Structural, Debug, Hash, PartialOrd, Ord)]
pub enum Mode {
    AutoOn,
    ManualOn,
    Fade,
    Strobe,
    Smooth,
    Flash,
}

/// The color shown after an auto-on trigger or the remote's On button.
pub open spec fn default_on_color() -> RGBW8 {
    RGBW8 { r: 64, g: 0, b: 0, w: 128 }
}

/// The color of the remote's White button.
pub open spec fn white_color() -> RGBW8 {
    RGBW8 { r: 0, g: 0, b: 0, w: 255 }
}

/// Milliseconds between two color steps in a mode.
pub open spec fn step_interval_ms(m: Mode) -> u32 {
    match m {
        Mode::AutoOn | Mode::ManualOn => ONOFF_FADE_STEP_MS,
        Mode::Fade => FADE_MODE_STEP_MS,
        Mode::Strobe => STROBE_MODE_STEP_MS,
        Mode::Smooth => SMOOTH_MODE_STEP_MS,
        Mode::Flash => FLASH_MODE_STEP_MS,
    }
}

/// Milliseconds that the light stays on in a mode.
pub open spec fn on_duration_ms(m: Mode) -> u32 {
    if m == Mode::AutoOn {
        AUTO_ON_DURATION_MS
    } else {
        MANUAL_ON_DURATION_MS
    }
}

/// Modes that cycle through pseudo-random colors on all three color channels.
pub open spec fn draws_rgb(m: Mode) -> bool {
    m == Mode::Fade || m == Mode::Strobe
}

/// Modes that cycle through colors of the palette.
pub open spec fn draws_palette(m: Mode) -> bool {
    m == Mode::Smooth || m == Mode::Flash
}

pub open spec fn is_cycling(m: Mode) -> bool {
    draws_rgb(m) || draws_palette(m)
}

/// `c` may be the next destination of mode `m` when `current` is displayed.
pub open spec fn draw_ok(m: Mode, current: RGBW8, c: RGBW8) -> bool {
    &&& draws_rgb(m) ==> c != current && c.w == 0
    &&& draws_palette(m) ==> c != current && is_palette_rgbw(c)
}

/// A fade in progress: the displayed color, where it is heading and when it
/// last moved.
#[derive(Copy, Clone, PartialEq, Eq, Structural, Debug)]
pub struct FadeToState {
    pub color: RGBW8,
    pub destination_color: RGBW8,
    pub transitioned_at: Instant,
}

/// What the light holds while on.
#[derive(Copy, Clone, PartialEq, Eq, Structural, Debug)]
pub struct OnStateData {
    pub mode: Mode,
    pub started_at: Instant,
    pub fade_to: FadeToState,
}

/// The states of the controller, each with its own data.
#[derive(Copy, Clone, PartialEq, Eq, Structural, Debug)]
pub enum State {
    /// Before initialisation.
    Reset,
    /// Off, possibly still fading out.
    Off(FadeToState),
    /// On, fading toward or holding a color.
    On(OnStateData),
}

/// What the controller reacts to.
#[derive(Copy, Clone, PartialEq, Eq, Structural, Debug)]
pub enum Event {
    Init,
    AutoOn,
    ManualOn(RGBW8),
    Fade,
    Strobe,
    Smooth,
    Flash,
    ManualOff,
    TimerCheck,
}

/// The color on the LEDs in a state.
pub open spec fn displayed(s: State) -> RGBW8 {
    match s {
        State::Reset => color_off(),
        State::Off(f) => f.color,
        State::On(d) => d.fade_to.color,
    }
}

/// The color that a state is fading toward.
pub open spec fn destination(s: State) -> RGBW8 {
    match s {
        State::Reset => color_off(),
        State::Off(f) => f.destination_color,
        State::On(d) => d.fade_to.destination_color,
    }
}

/// The states that the controller can be in once initialised: off always
/// fades toward dark, and a cycling mode always has a destination apart from
/// the displayed color.
pub open spec fn state_wf(s: State) -> bool {
    match s {
        State::Reset => false,
        State::Off(f) => f.destination_color == color_off(),
        State::On(d) => is_cycling(d.mode) ==> d.fade_to.color != d.fade_to.destination_color,
    }
}

/// The fade record of an initialised state.
pub open spec fn fade_of(s: State) -> FadeToState {
    match s {
        State::Reset => arbitrary(),
        State::Off(f) => f,
        State::On(d) => d.fade_to,
    }
}

/// Milliseconds between two color steps in a state.
pub open spec fn state_step_interval_ms(s: State) -> u32 {
    match s {
        State::On(d) => step_interval_ms(d.mode),
        _ => ONOFF_FADE_STEP_MS,
    }
}

/// The mode that an event switches the light on in.
pub open spec fn event_mode(e: Event) -> Mode {
    match e {
        Event::AutoOn => Mode::AutoOn,
        Event::Fade => Mode::Fade,
        Event::Strobe => Mode::Strobe,
        Event::Smooth => Mode::Smooth,
        Event::Flash => Mode::Flash,
        _ => Mode::ManualOn,
    }
}

/// The destination that an event switches the light on with; the cycling
/// modes take the drawn color.
pub open spec fn event_destination(e: Event, drawn: RGBW8) -> RGBW8 {
    match e {
        Event::AutoOn => default_on_color(),
        Event::ManualOn(c) => c,
        _ => drawn,
    }
}

/// Events that switch the light on.
pub open spec fn is_on_event(e: Event) -> bool {
    match e {
        Event::Init | Event::ManualOff | Event::TimerCheck => false,
        _ => true,
    }
}

/// The fade record of an off state that starts from `color` at `now`.
pub open spec fn fade_out_from(color: RGBW8, now: Instant) -> FadeToState {
    FadeToState { color, destination_color: color_off(), transitioned_at: now }
}

/// The on state entered at `now` in mode `m`, fading from `current` to `dest`.
pub open spec fn entered_on(m: Mode, current: RGBW8, dest: RGBW8, now: Instant) -> OnStateData {
    OnStateData {
        mode: m,
        started_at: now,
        fade_to: FadeToState { color: current, destination_color: dest, transitioned_at: now },
    }
}

/// Whether a tick at `now` steps an unfinished fade: a full step interval has
/// passed since its last step.
pub open spec fn fade_steps(f: FadeToState, interval: u32, now: Instant) -> bool {
    f.color != f.destination_color && elapsed_ms(now.ms(), f.transitioned_at.ms()) >= interval
}

/// Whether a tick at `now` steps a fade-out that is not yet dark.
pub open spec fn off_steps(f: FadeToState, now: Instant) -> bool {
    f.color != color_off() && elapsed_ms(now.ms(), f.transitioned_at.ms()) >= ONOFF_FADE_STEP_MS
}

/// The step half of a tick: one step toward the destination once a full step
/// interval has passed since the last one.
pub open spec fn progressed(f: FadeToState, interval: u32, now: Instant) -> FadeToState {
    if fade_steps(f, interval, now) {
        FadeToState {
            color: stepped_toward(f.color, f.destination_color),
            destination_color: f.destination_color,
            transitioned_at: now,
        }
    } else {
        f
    }
}

/// Whether a tick in the on state reaches the destination of a cycling mode,
/// which then takes a newly drawn destination.
pub open spec fn retargets(d: OnStateData, now: Instant) -> bool {
    &&& d.fade_to.color != d.fade_to.destination_color
    &&& progressed(d.fade_to, step_interval_ms(d.mode), now).color == d.fade_to.destination_color
    &&& is_cycling(d.mode)
}

/// Whether the light has been on for its mode's whole duration at `now`.
pub open spec fn timed_out(d: OnStateData, now: Instant) -> bool {
    elapsed_ms(now.ms(), d.started_at.ms()) >= on_duration_ms(d.mode)
}

/// A tick while on: step, take a new destination where a cycling mode reached
/// its own, and switch off (fading out from the displayed color) once timed out.
pub open spec fn on_tick(d: OnStateData, now: Instant, drawn: RGBW8) -> State {
    let f = progressed(d.fade_to, step_interval_ms(d.mode), now);
    let g = if retargets(d, now) {
        FadeToState { destination_color: drawn, ..f }
    } else {
        f
    };
    if timed_out(d, now) {
        State::Off(fade_out_from(g.color, now))
    } else {
        State::On(OnStateData { fade_to: g, ..d })
    }
}

/// A tick while off: step toward dark once a full step interval has passed;
/// once dark, the fade record restarts at `now`.
pub open spec fn off_tick(f: FadeToState, now: Instant) -> State {
    let g = if off_steps(f, now) {
        FadeToState { color: stepped_down(f.color), transitioned_at: now, ..f }
    } else {
        f
    };
    if g.color == color_off() {
        State::Off(fade_out_from(g.color, now))
    } else {
        State::Off(g)
    }
}

/// The state after event `e` at `now` in state `s`; `drawn` is the color that
/// the random generator supplied where the transition needs one. Events that
/// a state has no transition for leave it unchanged.
pub open spec fn transition(s: State, e: Event, now: Instant, drawn: RGBW8) -> State {
    match s {
        State::Reset => match e {
            Event::Init => State::Off(fade_out_from(color_off(), now)),
            _ => s,
        },
        State::Off(f) => match e {
            Event::TimerCheck => off_tick(f, now),
            Event::Init | Event::ManualOff => s,
            _ => State::On(entered_on(event_mode(e), f.color, event_destination(e, drawn), now)),
        },
        State::On(d) => match e {
            Event::TimerCheck => on_tick(d, now, drawn),
            Event::ManualOff => State::Off(fade_out_from(d.fade_to.color, now)),
            Event::Init => s,
            _ => State::On(
                entered_on(event_mode(e), d.fade_to.color, event_destination(e, drawn), now),
            ),
        },
    }
}

/// What the random generator must have supplied for `transition(s, e, now, drawn)`:
/// a color distinct from the displayed one, of the kind the mode draws.
pub open spec fn valid_draw(s: State, e: Event, now: Instant, drawn: RGBW8) -> bool {
    match s {
        State::Reset => true,
        State::Off(f) => is_on_event(e) ==> draw_ok(event_mode(e), f.color, drawn),
        State::On(d) => match e {
            Event::TimerCheck => retargets(d, now) ==> draw_ok(
                d.mode,
                d.fade_to.destination_color,
                drawn,
            ),
            _ => is_on_event(e) ==> draw_ok(event_mode(e), d.fade_to.color, drawn),
        },
    }
}

/// The colors that event `e` at `now` writes to the LED driver in state `s`,
/// in order: a step pushes the stepped color; a fade-out reaching dark then
/// turns the strip off; initialisation turns it off. Nothing else writes.
pub open spec fn writes_of(s: State, e: Event, now: Instant) -> Seq<RGBW8> {
    match s {
        State::Reset => match e {
            Event::Init => seq![color_off()],
            _ => Seq::empty(),
        },
        State::Off(f) => match e {
            Event::TimerCheck => if off_steps(f, now) {
                if stepped_down(f.color) == color_off() {
                    seq![stepped_down(f.color), color_off()]
                } else {
                    seq![stepped_down(f.color)]
                }
            } else {
                Seq::empty()
            },
            _ => Seq::empty(),
        },
        State::On(d) => match e {
            Event::TimerCheck => if fade_steps(d.fade_to, step_interval_ms(d.mode), now) {
                seq![stepped_toward(d.fade_to.color, d.fade_to.destination_color)]
            } else {
                Seq::empty()
            },
            _ => Seq::empty(),
        },
    }
}

/// Whether event `e` at `now` draws a destination from the random generator
/// in state `s`: switching into a cycling mode, or a cycling mode reaching its
/// destination.
pub open spec fn draws(s: State, e: Event, now: Instant) -> bool {
    match s {
        State::Reset => false,
        State::Off(_) => is_on_event(e) && is_cycling(event_mode(e)),
        State::On(d) => match e {
            Event::TimerCheck => retargets(d, now),
            _ => is_on_event(e) && is_cycling(event_mode(e)),
        },
    }
}

/// Whether event `e` at `now` re-seeds the random generator from the clock in
/// state `s`: a fade-out tick that reaches dark.
pub open spec fn reseeds(s: State, e: Event, now: Instant) -> bool {
    &&& s matches State::Off(f)
    &&& e == Event::TimerCheck
    &&& off_steps(f, now)
    &&& stepped_down(f.color) == color_off()
}

/// The event that a remote button raises, if any; the repeat flag of a held
/// button does not change it.
pub open spec fn button_event(b: Button) -> Option<Event> {
    match b {
        Button::Off => Some(Event::ManualOff),
        Button::On => Some(Event::ManualOn(default_on_color())),
        Button::White => Some(Event::ManualOn(white_color())),
        Button::Fade => Some(Event::Fade),
        Button::Strobe => Some(Event::Strobe),
        Button::Smooth => Some(Event::Smooth),
        Button::Flash => Some(Event::Flash),
        _ => match button_basic_color(b) {
            Some(c) => Some(Event::ManualOn(basic_rgbw(c))),
            None => None,
        },
    }
}

/// A tick moves the displayed color by at most one unit per channel and never
/// past the destination; where the fade is unfinished and a full step interval
/// has passed since its last step, it moves exactly one step toward the
/// destination.
pub proof fn lemma_tick_step_bound(s: State, now: Instant, drawn: RGBW8)
    requires
        state_wf(s),
    ensures
        within_one_step(
            displayed(s),
            destination(s),
            displayed(transition(s, Event::TimerCheck, now, drawn)),
        ),
        displayed(s) != destination(s) && elapsed_ms(now.ms(), fade_of(s).transitioned_at.ms())
            >= state_step_interval_ms(s) ==> displayed(transition(s, Event::TimerCheck, now, drawn))
            == stepped_toward(displayed(s), destination(s)),
{
    lemma_step_is_bounded(displayed(s), destination(s));
    lemma_step_down_is_step_toward_off(displayed(s));
}

/// Once the displayed color has reached the destination, ticks leave it as it
/// is, and while the light stays on the whole fade record stays as it is.
pub proof fn lemma_reached_destination_is_stable(s: State, now: Instant, drawn: RGBW8)
    requires
        state_wf(s),
        displayed(s) == destination(s),
    ensures
        displayed(transition(s, Event::TimerCheck, now, drawn)) == displayed(s),
        transition(s, Event::TimerCheck, now, drawn) is On ==> fade_of(
            transition(s, Event::TimerCheck, now, drawn),
        ) == fade_of(s),
        writes_of(s, Event::TimerCheck, now).len() == 0,
        !draws(s, Event::TimerCheck, now),
        !reseeds(s, Event::TimerCheck, now),
{
}

/// What a tick writes to the driver ends with the color that the new state
/// displays; a tick writes exactly when it steps.
pub proof fn lemma_tick_writes_displayed(s: State, now: Instant, drawn: RGBW8)
    requires
        state_wf(s),
    ensures
        writes_of(s, Event::TimerCheck, now).len() > 0 ==> writes_of(s, Event::TimerCheck, now).last()
            == displayed(transition(s, Event::TimerCheck, now, drawn)),
        writes_of(s, Event::TimerCheck, now).len() > 0 <==> displayed(s) != destination(s)
            && elapsed_ms(now.ms(), fade_of(s).transitioned_at.ms()) >= state_step_interval_ms(s),
{
}

/// While on, a tick requests the switch to off exactly when the mode's whole
/// duration has passed since the light was switched on: never before
/// `started_at + duration`, and at the first tick from then on.
pub proof fn lemma_on_timeout(d: OnStateData, now: Instant, drawn: RGBW8)
    ensures
        transition(State::On(d), Event::TimerCheck, now, drawn) is Off <==> now.ms()
            >= d.started_at.ms() + on_duration_ms(d.mode),
{
}

/// Every transition keeps an initialised state initialised, given a drawn
/// color of the kind the transition asks for; in particular a cycling mode
/// never sits at a destination equal to its displayed color.
pub proof fn lemma_transition_preserves_wf(s: State, e: Event, now: Instant, drawn: RGBW8)
    requires
        state_wf(s),
        valid_draw(s, e, now, drawn),
    ensures
        state_wf(transition(s, e, now, drawn)),
{
}

impl FadeToState {
    pub fn new(color: RGBW8, destination_color: RGBW8, transitioned_at: Instant) -> (r: FadeToState)
        ensures
            r == (FadeToState { color, destination_color, transitioned_at }),
    {
        FadeToState { color, destination_color, transitioned_at }
    }

    fn step_color_to(&mut self)
        ensures
            *final(self) == (FadeToState {
                color: stepped_toward(old(self).color, old(self).destination_color),
                ..*old(self)
            }),
    {
        self.color.step_to(&self.destination_color);
    }

    /// Whether the displayed color equals the destination.
    pub fn destination_color_reached(&self) -> (r: bool)
        ensures
            r == (self.color == self.destination_color),
    {
        self.color.destination_reached(&self.destination_color)
    }
}

fn step_interval(m: Mode) -> (r: u32)
    ensures
        r == step_interval_ms(m),
{
    match m {
        Mode::AutoOn | Mode::ManualOn => ONOFF_FADE_STEP_MS,
        Mode::Fade => FADE_MODE_STEP_MS,
        Mode::Strobe => STROBE_MODE_STEP_MS,
        Mode::Smooth => SMOOTH_MODE_STEP_MS,
        Mode::Flash => FLASH_MODE_STEP_MS,
    }
}

fn on_duration(m: Mode) -> (r: u32)
    ensures
        r == on_duration_ms(m),
{
    match m {
        Mode::AutoOn => AUTO_ON_DURATION_MS,
        _ => MANUAL_ON_DURATION_MS,
    }
}

/// What the state machine acts on: the LED output, the random color source
/// and the shared clock.
pub struct Context<LED> {
    output: LedOutput<LED>,
    color_gen: RandomColorGen,
    clock: &'static SystemClock,
}

impl<LED: InfallibleLedDriver> Context<LED> {
    /// The colors written to the driver so far, oldest first.
    pub closed spec fn sent(&self) -> Seq<RGBW8> {
        self.output.sent()
    }

    /// The state of the random color source.
    pub closed spec fn generator(&self) -> (u64, u64) {
        self.color_gen@
    }

    /// A context with nothing written yet, whose random colors are seeded
    /// from the clock's reading.
    pub fn new(driver: LED, clock: &'static SystemClock) -> (r: Context<LED>)
        ensures
            r.sent() == Seq::<RGBW8>::empty(),
            exists|now: Instant| r.generator() == rand32_seeded(now.ms() as u64),
    {
        let now = clock.now();
        Context::seeded_at(driver, clock, now)
    }

    fn seeded_at(driver: LED, clock: &'static SystemClock, now: Instant) -> (r: Context<LED>)
        ensures
            r.sent() == Seq::<RGBW8>::empty(),
            r.generator() == rand32_seeded(now.ms() as u64),
    {
        Context {
            output: LedOutput::new(driver),
            color_gen: RandomColorGen::new(now.as_millis() as u64),
            clock,
        }
    }

    /// A destination for mode `m` that suits `draw_ok` when `current` is displayed.
    fn next_destination(&mut self, m: Mode, current: RGBW8) -> (r: RGBW8)
        requires
            is_cycling(m),
        ensures
            draw_ok(m, current, r),
            final(self).sent() == old(self).sent(),
    {
        match m {
            Mode::Fade | Mode::Strobe => self.color_gen.next_rgb_distinct_from(current),
            _ => {
                let c = self.color_gen.next_color_distinct_from(current);
                let r = c.as_rgbw();
                assert(basic_rgbw(c) == r);
                r
            },
        }
    }

    fn init_action(&mut self, now: Instant) -> (r: State)
        ensures
            r == transition(State::Reset, Event::Init, now, color_off()),
            final(self).sent() == old(self).sent() + writes_of(State::Reset, Event::Init, now),
            final(self).generator() == old(self).generator(),
    {
        self.output.set_off();
        let off = RGBW8::off();
        State::Off(FadeToState::new(off, off, now))
    }

    /// Enters the on state for an event that switches the light on.
    fn enter_on(&mut self, e: Event, current: RGBW8, now: Instant) -> (r: (
        OnStateData,
        Ghost<RGBW8>,
    ))
        requires
            is_on_event(e),
        ensures
            draw_ok(event_mode(e), current, r.1@),
            r.0 == entered_on(event_mode(e), current, event_destination(e, r.1@), now),
            final(self).sent() == old(self).sent(),
            !is_cycling(event_mode(e)) ==> final(self).generator() == old(self).generator(),
    {
        let (mode, dest) = match e {
            Event::AutoOn => (Mode::AutoOn, RGBW8::new(64, 0, 0, 128)),
            Event::ManualOn(c) => (Mode::ManualOn, c),
            Event::Fade => (Mode::Fade, self.next_destination(Mode::Fade, current)),
            Event::Strobe => (Mode::Strobe, self.next_destination(Mode::Strobe, current)),
            Event::Smooth => (Mode::Smooth, self.next_destination(Mode::Smooth, current)),
            _ => (Mode::Flash, self.next_destination(Mode::Flash, current)),
        };
        let data = OnStateData {
            mode,
            started_at: now,
            fade_to: FadeToState::new(current, dest, now),
        };
        (data, Ghost(dest))
    }

    /// A tick while off.
    fn off_timer_check(&mut self, f: FadeToState, now: Instant) -> (r: State)
        ensures
            r == off_tick(f, now),
            final(self).sent() == old(self).sent() + writes_of(State::Off(f), Event::TimerCheck, now),
            reseeds(State::Off(f), Event::TimerCheck, now) ==> final(self).generator()
                == rand32_seeded(now.ms() as u64),
            !reseeds(State::Off(f), Event::TimerCheck, now) ==> final(self).generator()
                == old(self).generator(),
    {
        let mut f = f;
        if !f.color.is_off() {
            let since = now.duration_since(f.transitioned_at);
            if since.as_millis() >= ONOFF_FADE_STEP_MS {
                f.transitioned_at = now;
                f.color.step_down();
                self.output.set_pixels(&f.color);
            }
            if f.color.is_off() {
                self.output.set_off();
                self.color_gen = RandomColorGen::new(now.as_millis() as u64);
            }
        }
        if f.color.is_off() {
            State::Off(FadeToState::new(f.color, RGBW8::off(), now))
        } else {
            State::Off(f)
        }
    }

    /// A tick while on.
    fn on_timer_check(&mut self, d: OnStateData, now: Instant) -> (r: (State, Ghost<RGBW8>))
        ensures
            retargets(d, now) ==> draw_ok(d.mode, d.fade_to.destination_color, r.1@),
            r.0 == on_tick(d, now, r.1@),
            final(self).sent() == old(self).sent() + writes_of(State::On(d), Event::TimerCheck, now),
            !retargets(d, now) ==> final(self).generator() == old(self).generator(),
    {
        let mut f = d.fade_to;
        let ghost mut drawn = color_off();
        if !f.destination_color_reached() {
            let since = now.duration_since(f.transitioned_at);
            if since.as_millis() >= step_interval(d.mode) {
                f.transitioned_at = now;
                f.step_color_to();
                self.output.set_pixels(&f.color);
            }
            if f.destination_color_reached() {
                match d.mode {
                    Mode::Fade | Mode::Strobe | Mode::Smooth | Mode::Flash => {
                        let next = self.next_destination(d.mode, f.color);
                        f.destination_color = next;
                        proof {
                            drawn = next;
                        }
                    },
                    _ => {},
                }
            }
        }
        let since_start = now.duration_since(d.started_at);
        if since_start.as_millis() >= on_duration(d.mode) {
            (State::Off(FadeToState::new(f.color, RGBW8::off(), now)), Ghost(drawn))
        } else {
            (State::On(OnStateData { mode: d.mode, started_at: d.started_at, fade_to: f }), Ghost(drawn))
        }
    }
}

/// The night light's controller: a state machine over `State`, driven by
/// remote commands, the auto-on trigger and periodic ticks.
pub struct Controller<LED> {
    state: State,
    context: Context<LED>,
}

impl<LED> View for Controller<LED> {
    type V = State;

    closed spec fn view(&self) -> State {
        self.state
    }
}

impl<LED: InfallibleLedDriver> Controller<LED> {
    /// The colors written to the LED driver so far, oldest first; turning the
    /// strip off counts as writing the dark color.
    pub closed spec fn sent(&self) -> Seq<RGBW8> {
        self.context.sent()
    }

    /// The state of the random color source.
    pub closed spec fn generator(&self) -> (u64, u64) {
        self.context.generator()
    }

    /// `next` is this controller after event `e` at `now`: the transition of
    /// the state, exactly the writes that it makes, and the random source kept
    /// unless the transition draws a color or re-seeds it from `now`.
    pub open spec fn dispatched(&self, next: &Self, e: Event, now: Instant) -> bool {
        &&& exists|drawn: RGBW8|
            valid_draw(self@, e, now, drawn) && next@ == transition(self@, e, now, drawn)
        &&& next.sent() == self.sent() + writes_of(self@, e, now)
        &&& !draws(self@, e, now) && !reseeds(self@, e, now) ==> next.generator()
            == self.generator()
        &&& reseeds(self@, e, now) ==> next.generator() == rand32_seeded(now.ms() as u64)
    }

    /// A controller that has run its initialisation: off, dark, the driver
    /// told once to turn dark, and the random source seeded from the clock.
    pub fn new(driver: LED, sys_clock: &'static SystemClock) -> (r: Controller<LED>)
        ensures
            exists|now: Instant|
                r@ == transition(State::Reset, Event::Init, now, color_off()) && r.generator()
                    == rand32_seeded(now.ms() as u64),
            r.sent() == seq![color_off()],
            state_wf(r@),
    {
        let now = sys_clock.now();
        let context = Context::seeded_at(driver, sys_clock, now);
        let mut c = Controller { state: State::Reset, context };
        c.state = c.context.init_action(now);
        assert(c.sent() =~= seq![color_off()]);
        c
    }

    /// The current state.
    pub fn state(&self) -> (r: &State)
        ensures
            *r == self@,
    {
        &self.state
    }

    /// Whether the light is off and has finished fading out, so that the host
    /// may enter a low-power state.
    pub fn is_idle(&self) -> (r: bool)
        ensures
            r == (self@ is Off && fade_of(self@).color == fade_of(self@).destination_color),
    {
        match self.state {
            State::Off(f) => f.destination_color_reached(),
            _ => false,
        }
    }

    /// Processes one event at `now`: performs the transition that the current
    /// state has for it, or nothing where it has none.
    pub fn dispatch(&mut self, event: Event, now: Instant)
        ensures
            old(self).dispatched(final(self), event, now),
    {
        let (next, drawn): (State, Ghost<RGBW8>) = match self.state {
            State::Reset => match event {
                Event::Init => (self.context.init_action(now), Ghost(color_off())),
                _ => (State::Reset, Ghost(color_off())),
            },
            State::Off(f) => match event {
                Event::TimerCheck => (self.context.off_timer_check(f, now), Ghost(color_off())),
                Event::Init | Event::ManualOff => (State::Off(f), Ghost(color_off())),
                _ => {
                    let (d, drawn) = self.context.enter_on(event, f.color, now);
                    (State::On(d), drawn)
                },
            },
            State::On(d) => match event {
                Event::TimerCheck => self.context.on_timer_check(d, now),
                Event::ManualOff => (
                    State::Off(FadeToState::new(d.fade_to.color, RGBW8::off(), now)),
                    Ghost(color_off()),
                ),
                Event::Init => (State::On(d), Ghost(color_off())),
                _ => {
                    let (n, drawn) = self.context.enter_on(event, d.fade_to.color, now);
                    (State::On(n), drawn)
                },
            },
        };
        self.state = next;
        assert(valid_draw(old(self)@, event, now, drawn@) && self@ == transition(
            old(self)@,
            event,
            now,
            drawn@,
        ));
        assert(self.sent() =~= old(self).sent() + writes_of(old(self)@, event, now));
    }

    /// Processes one tick: fade stepping and timeouts. Call it every few
    /// milliseconds.
    pub fn update(&mut self)
        ensures
            exists|now: Instant| old(self).dispatched(final(self), Event::TimerCheck, now),
    {
        let now = self.context.clock.now();
        self.dispatch(Event::TimerCheck, now);
    }

    /// Processes one signal of the auto-on trigger.
    pub fn handle_auto_on_event(&mut self)
        ensures
            exists|now: Instant| old(self).dispatched(final(self), Event::AutoOn, now),
    {
        let now = self.context.clock.now();
        self.dispatch(Event::AutoOn, now);
    }

    /// Processes one remote command. Buttons without an event (brightness and
    /// unmapped codes) are ignored: nothing changes, nothing is written.
    pub fn handle_ir_command(&mut self, cmd: IrCommand)
        ensures
            match button_event(cmd.button) {
                Some(e) => exists|now: Instant| old(self).dispatched(final(self), e, now),
                None => *final(self) == *old(self),
            },
    {
        let maybe_btn_color = BasicColor::from_button(cmd.button);
        let event = match cmd.button {
            Button::Off => Some(Event::ManualOff),
            Button::On => Some(Event::ManualOn(RGBW8::new(64, 0, 0, 128))),
            Button::White => Some(Event::ManualOn(RGBW8::new(0, 0, 0, 255))),
            Button::Fade => Some(Event::Fade),
            Button::Strobe => Some(Event::Strobe),
            Button::Smooth => Some(Event::Smooth),
            Button::Flash => Some(Event::Flash),
            _ => match maybe_btn_color {
                Some(c) => Some(Event::ManualOn(c.as_rgbw())),
                None => None,
            },
        };
        match event {
            Some(e) => {
                let now = self.context.clock.now();
                self.dispatch(e, now);
            },
            None => {},
        }
    }
}

} // verus!
