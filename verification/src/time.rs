use vstd::prelude::*;

verus! {

/// Seconds since the Unix epoch of the earliest instant a UTC date-time can
/// hold: -262143-01-01T00:00:00Z, the first second of its earliest day.
/// The day before, -262144-12-31, starts at -8334601315200 and is out of
/// range.
pub const MIN_SECS: i64 = -8334601228800;

/// Seconds since the Unix epoch of the last second a UTC date-time can hold
/// (262142-12-31T23:59:59Z; any fraction of it is still in range).
pub const MAX_SECS: i64 = 8210266876799;

/// The largest number of whole seconds a time delta can span (`i64::MAX`
/// milliseconds, rounded down to seconds).
pub const MAX_DELTA_SECS: i64 = 9223372036854775;

pub const NANOS_PER_SEC: u32 = 1000000000;

/// An instant in UTC: whole seconds since the Unix epoch (rounded down) and
/// the nanoseconds past that second.
#[derive(Clone, Copy, Debug, PartialEq, Eq, Structural)]
pub struct Timestamp {
    pub secs: i64,
    pub nanos: u32,
}

/// A whole number of minutes can be turned into a time delta.
pub open spec fn minutes_delta_ok(minutes: int) -> bool {
    -MAX_DELTA_SECS <= minutes * 60 <= MAX_DELTA_SECS
}

/// Whether a whole number of minutes can be turned into a time delta.
pub fn minutes_delta_fits(minutes: i64) -> (b: bool)
    ensures
        b == minutes_delta_ok(minutes as int),
{
    -(MAX_DELTA_SECS / 60) <= minutes && minutes <= MAX_DELTA_SECS / 60
}

impl Timestamp {
    /// The instant lies in the range of a UTC date-time.
    pub open spec fn wf(self) -> bool {
        &&& MIN_SECS <= self.secs <= MAX_SECS
        &&& self.nanos < NANOS_PER_SEC
    }

    /// `self` is strictly earlier than `other`.
    pub open spec fn before(self, other: Timestamp) -> bool {
        ||| self.secs < other.secs
        ||| (self.secs == other.secs && self.nanos < other.nanos)
    }

    /// The instant `minutes` whole minutes later (earlier when negative), if
    /// the delta and the result are both representable.
    pub open spec fn plus_minutes(self, minutes: int) -> Option<Timestamp> {
        if minutes_delta_ok(minutes) && MIN_SECS <= self.secs + minutes * 60 <= MAX_SECS {
            Some(Timestamp { secs: (self.secs + minutes * 60) as i64, nanos: self.nanos })
        } else {
            None
        }
    }

    /// Whether `self` is strictly earlier than `other`.
    pub fn is_before(&self, other: &Timestamp) -> (b: bool)
        ensures
            b == self.before(*other),
    {
        self.secs < other.secs || (self.secs == other.secs && self.nanos < other.nanos)
    }

    /// Adds whole minutes, as a checked date-time addition of a minute delta does:
    /// `None` when the delta or the result falls out of range.
    pub fn checked_add_minutes(&self, minutes: i64) -> (r: Option<Timestamp>)
        requires
            self.wf(),
        ensures
            r == self.plus_minutes(minutes as int),
            r matches Some(t) ==> t.wf(),
    {
        if !minutes_delta_fits(minutes) {
            return None;
        }
        let secs: i64 = self.secs + minutes * 60;
        if secs < MIN_SECS || secs > MAX_SECS {
            None
        } else {
            Some(Timestamp { secs, nanos: self.nanos })
        }
    }

    /// The current time of the system clock (`chrono::Utc::now`), which is
    /// never before the Unix epoch and always within the range of a UTC
    /// date-time. Which instant comes back is not stated.
    #[verifier::external_body]
    pub(crate) fn now() -> (t: Timestamp)
        ensures
            t.wf(),
            t.secs >= 0,
    {
        let now = chrono::Utc::now();
        Timestamp { secs: now.timestamp(), nanos: now.timestamp_subsec_nanos() }
    }
}

/// Earlier-than is a strict total order: irreflexive, transitive, and of two
/// different instants one is earlier; an instant in an earlier second is
/// earlier.
pub proof fn lemma_before_strict_order(a: Timestamp, b: Timestamp, c: Timestamp)
    ensures
        !a.before(a),
        a.before(b) && b.before(c) ==> a.before(c),
        a.before(b) ==> !b.before(a),
        a.before(b) || b.before(a) || a == b,
        a.secs < b.secs ==> a.before(b),
{
}

/// Adding a non-negative number of minutes never moves an instant earlier.
pub proof fn lemma_plus_minutes_not_earlier(t: Timestamp, minutes: int)
    requires
        minutes >= 0,
        t.plus_minutes(minutes) is Some,
    ensures
        !t.plus_minutes(minutes).unwrap().before(t),
        minutes > 0 ==> t.before(t.plus_minutes(minutes).unwrap()),
{
}

} // verus!
