use core::sync::atomic::{AtomicU32, Ordering};
use vstd::prelude::*;

verus! {

/// A point in time (or a span of time), in milliseconds of a 32-bit counter.
#[derive(Copy, Clone, PartialEq, Eq, Structural, Debug, Hash, PartialOrd, Ord)]
pub struct Instant(u32);

/// Spans of time share the representation of instants.
pub type Duration = Instant;

/// Well-known spans of time, in milliseconds.
pub const ONE_SECOND_MS: u32 = 1000;
pub const ONE_MINUTE_MS: u32 = 60000;
pub const TEN_MINUTES_MS: u32 = 600000;
pub const ONE_HOUR_MS: u32 = 3600000;
pub const TEN_HOURS_MS: u32 = 36000000;

/// From this count on the clock is close enough to wrapping around that the
/// host should restart it.
pub const NEAR_WRAP_AROUND_MS: u32 = u32::MAX - TEN_HOURS_MS;

/// Milliseconds from `earlier` to `later`, or zero where `earlier` is the later one.
pub open spec fn elapsed_ms(later: u32, earlier: u32) -> u32 {
    if later >= earlier {
        (later - earlier) as u32
    } else {
        0
    }
}

impl Instant {
    /// The millisecond count.
    pub closed spec fn ms(self) -> u32 {
        self.0
    }

    pub fn from_millis(ms: u32) -> (r: Instant)
        ensures
            r.ms() == ms,
    {
        Instant(ms)
    }

    pub fn as_millis(self) -> (r: u32)
        ensures
            r == self.ms(),
    {
        self.0
    }

    /// Time elapsed since `earlier`; saturates to zero when `earlier` is later than `self`.
    pub fn duration_since(&self, earlier: Instant) -> (r: Duration)
        ensures
            r.ms() == elapsed_ms(self.ms(), earlier.ms()),
    {
        if self.0 >= earlier.0 {
            Instant(self.0 - earlier.0)
        } else {
            Instant(0)
        }
    }

    /// The sum of two spans (or an instant and a span); the sum must fit the counter.
    pub fn add(self, other: Instant) -> (r: Instant)
        requires
            self.ms() + other.ms() <= u32::MAX,
        ensures
            r.ms() == self.ms() + other.ms(),
    {
        Instant(self.0 + other.0)
    }

    /// Whether this count lies at or past the near-wraparound threshold.
    pub fn is_near_wrap_around(self) -> (r: bool)
        ensures
            r == (self.ms() >= NEAR_WRAP_AROUND_MS),
    {
        self.0 >= NEAR_WRAP_AROUND_MS
    }
}

/// Instants with the same millisecond count are the same instant; in
/// particular `Instant::from_millis(i.as_millis()) == i`.
pub proof fn lemma_ms_determines_instant(a: Instant, b: Instant)
    requires
        a.ms() == b.ms(),
    ensures
        a == b,
{
}

impl From<Instant> for u32 {
    fn from(i: Instant) -> (r: u32) {
        i.0
    }
}

impl vstd::std_specs::convert::FromSpecImpl<Instant> for u32 {
    open spec fn obeys_from_spec() -> bool {
        true
    }

    open spec fn from_spec(i: Instant) -> u32 {
        i.ms()
    }
}

/// A 32-bit millisecond counter shared between the hardware tick interrupt,
/// which advances it, and the control loop, which reads it.
#[derive(Debug)]
pub struct SystemClock {
    ticks: AtomicU32,
}

impl SystemClock {
    /// A clock that starts at zero.
    pub fn new() -> (r: SystemClock) {
        SystemClock { ticks: AtomicU32::new(0) }
    }

    /// Advances the clock by one millisecond (wrapping at the counter's end).
    pub fn inc_from_interrupt(&self) {
        self.ticks.fetch_add(1, Ordering::SeqCst);
    }

    /// Whether the current reading lies at or past the near-wraparound
    /// threshold (see `Instant::is_near_wrap_around`).
    pub fn is_near_wrap_around(&self) -> (r: bool) {
        self.now().is_near_wrap_around()
    }

    /// The current reading; the interrupt may advance the clock at any time,
    /// so nothing is known of it beyond its type.
    pub fn now(&self) -> (r: Instant) {
        Instant::from_millis(self.load())
    }

    /// Time elapsed from `earlier` to the current reading, saturating at zero.
    pub fn duration_since(&self, earlier: Instant) -> (r: Duration)
        ensures
            exists|t: Instant| r.ms() == elapsed_ms(t.ms(), earlier.ms()),
    {
        self.now().duration_since(earlier)
    }

    fn load(&self) -> (r: u32) {
        self.ticks.load(Ordering::SeqCst)
    }
}

} // verus!
