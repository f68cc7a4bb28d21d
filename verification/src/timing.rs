//! Timer-resolution values and the observed state they are shown with.
use vstd::prelude::*;

use crate::text::{decimal, padded_decimal, push_decimal, push_padded_decimal};

verus! {

/// A timer interval in units of 100 nanoseconds.
#[derive(Clone, Copy, Debug, PartialEq, Eq, Structural)]
pub struct Hns {
    pub value: u64,
}

/// The interval in milliseconds with four decimals: the whole milliseconds, a point, and the
/// remaining 100-nanosecond units as four zero-padded digits.
pub open spec fn milliseconds_text(hns: u64) -> Seq<char> {
    decimal((hns / 10_000) as nat) + seq!['.'] + padded_decimal((hns % 10_000) as nat, 4)
}

/// The interval in milliseconds followed by the raw count, as in `0.4966 ms (4966 HNS)`.
pub open spec fn detailed_text(hns: u64) -> Seq<char> {
    milliseconds_text(hns) + " ms ("@ + decimal(hns as nat) + " HNS)"@
}

impl Hns {
    /// An interval of `value` units of 100 nanoseconds.
    pub fn new(value: u64) -> (h: Hns)
        ensures
            h.value == value,
    {
        Hns { value }
    }

    /// The interval in milliseconds with four decimals.
    pub fn format_milliseconds(&self) -> (s: String)
        ensures
            s@ == milliseconds_text(self.value),
    {
        let mut s = String::new();
        push_decimal(&mut s, self.value / 10_000);
        s.append(".");
        push_padded_decimal(&mut s, self.value % 10_000, 4);
        proof {
            reveal_strlit(".");
        }
        assert(s@ =~= milliseconds_text(self.value));
        s
    }

    /// The interval in milliseconds followed by the raw count.
    pub fn format_detailed(&self) -> (s: String)
        ensures
            s@ == detailed_text(self.value),
    {
        let mut s = self.format_milliseconds();
        s.append(" ms (");
        push_decimal(&mut s, self.value);
        s.append(" HNS)");
        assert(s@ =~= detailed_text(self.value));
        s
    }
}

/// Who holds the timer-resolution request.
#[derive(Clone, Copy, Debug, PartialEq, Eq, Structural)]
pub enum OwnershipState {
    Owned,
    Released,
    Uncertain,
}

/// The machine's power source.
#[derive(Clone, Copy, Debug, PartialEq, Eq, Structural)]
pub enum PowerState {
    Ac,
    Battery,
    BatterySaver,
    Unknown,
}

/// One observation of the requested and effective timing, with the flags that decide how it is
/// shown.
#[derive(Clone, Copy, Debug, PartialEq, Eq, Structural)]
pub struct TimingValues {
    pub requested: Option<Hns>,
    pub effective: Option<Hns>,
    pub external: bool,
    pub handoff_pending: bool,
    pub invalid_interval: bool,
    pub valid: bool,
}

impl TimingValues {
    /// Timing values built from a requested and effective observation and the display flags.
    pub fn from_snapshot(
        requested: Option<Hns>,
        effective: Option<Hns>,
        handoff_pending: bool,
        external: bool,
        invalid_interval: bool,
        valid: bool,
    ) -> (t: TimingValues)
        ensures
            t == (TimingValues {
                requested,
                effective,
                external,
                handoff_pending,
                invalid_interval,
                valid,
            }),
    {
        TimingValues { requested, effective, external, handoff_pending, invalid_interval, valid }
    }
}

impl Default for TimingValues {
    fn default() -> (t: TimingValues)
        ensures
            t == (TimingValues {
                requested: None,
                effective: None,
                external: false,
                handoff_pending: false,
                invalid_interval: false,
                valid: false,
            }),
    {
        TimingValues {
            requested: None,
            effective: None,
            external: false,
            handoff_pending: false,
            invalid_interval: false,
            valid: false,
        }
    }
}

} // verus!
