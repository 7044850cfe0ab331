use core::cmp::Ordering;
use vstd::prelude::*;
use vstd::std_specs::cmp::PartialOrdSpec;
use vstd::std_specs::cmp::PartialOrdSpecImpl;

verus! {

/// Nanoseconds since the UNIX epoch, supplied by the store at commit time.
#[derive(Debug, Clone, Copy, PartialEq, Eq, Hash, Ord, Structural)]
pub struct TimestampNanos(u64);

impl PartialOrd for TimestampNanos {
    /// Stamps compare as their nanosecond counts.
    fn partial_cmp(&self, other: &TimestampNanos) -> (order: Option<Ordering>) {
        if self.0 < other.0 {
            Some(Ordering::Less)
        } else if self.0 == other.0 {
            Some(Ordering::Equal)
        } else {
            Some(Ordering::Greater)
        }
    }
}

impl PartialOrdSpecImpl for TimestampNanos {
    open spec fn obeys_partial_cmp_spec() -> bool {
        true
    }

    open spec fn partial_cmp_spec(&self, other: &TimestampNanos) -> Option<Ordering> {
        if self@ < other@ {
            Some(Ordering::Less)
        } else if self@ == other@ {
            Some(Ordering::Equal)
        } else {
            Some(Ordering::Greater)
        }
    }
}

/// A stamp is determined by its nanosecond count: two stamps are equal exactly
/// when their counts are.
pub proof fn lemma_timestamp_determined_by_value(a: TimestampNanos, b: TimestampNanos)
    ensures
        a == b <==> a@ == b@,
{
}

/// Stamps are ordered as their nanosecond counts: the earlier count compares
/// less, equal counts compare equal, and swapping the two stamps reverses the
/// answer.
pub proof fn lemma_timestamp_order_follows_counts(a: TimestampNanos, b: TimestampNanos)
    ensures
        PartialOrdSpec::partial_cmp_spec(&a, &b) == Some(Ordering::Less) <==> a@ < b@,
        PartialOrdSpec::partial_cmp_spec(&a, &b) == Some(Ordering::Equal) <==> a@ == b@,
        PartialOrdSpec::partial_cmp_spec(&a, &b) == Some(Ordering::Greater) <==> a@ > b@,
        PartialOrdSpec::partial_cmp_spec(&a, &b) == Some(Ordering::Less) <==> PartialOrdSpec::partial_cmp_spec(&b, &a) == Some(
            Ordering::Greater,
        ),
{
}

impl View for TimestampNanos {
    type V = u64;

    closed spec fn view(&self) -> u64 {
        self.0
    }
}

impl TimestampNanos {
    /// The time `value` nanoseconds after the UNIX epoch.
    pub fn new(value: u64) -> (stamp: TimestampNanos)
        ensures
            stamp@ == value,
    {
        TimestampNanos(value)
    }

    /// The nanoseconds since the UNIX epoch.
    pub fn value(self) -> (value: u64)
        ensures
            value == self@,
    {
        self.0
    }
}

/// The sequence number of a memory event.
#[derive(Debug, Clone, Copy, PartialEq, Eq, Hash, Structural)]
pub struct EventSeq(u64);

impl View for EventSeq {
    type V = u64;

    closed spec fn view(&self) -> u64 {
        self.0
    }
}

impl EventSeq {
    /// The event with sequence number `value`.
    pub fn new(value: u64) -> (number: EventSeq)
        ensures
            number@ == value,
    {
        EventSeq(value)
    }

    /// The sequence number.
    pub fn into_u64(self) -> (value: u64)
        ensures
            value == self@,
    {
        self.0
    }
}

/// How many records a memory query may return.
#[derive(Debug, Clone, Copy, PartialEq, Eq, Hash, Structural)]
pub struct QueryLimit(u16);

impl View for QueryLimit {
    type V = u16;

    closed spec fn view(&self) -> u16 {
        self.0
    }
}

impl QueryLimit {
    /// A limit of `value` records.
    pub fn new(value: u16) -> (limit: QueryLimit)
        ensures
            limit@ == value,
    {
        QueryLimit(value)
    }

    /// The number of records.
    pub fn into_u16(self) -> (value: u16)
        ensures
            value == self@,
    {
        self.0
    }
}

} // verus!
