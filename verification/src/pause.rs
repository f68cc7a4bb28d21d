//! Scheduled timing actions: what is scheduled, for how long, and how much time remains.
use vstd::prelude::*;

verus! {

/// What a scheduled action does when its deadline passes.
#[derive(Clone, Copy, Debug, PartialEq, Eq, Structural)]
pub enum DurationAction {
    Start,
    Stop,
    Pause,
}

/// The fixed durations the schedule menu offers.
#[derive(Clone, Copy, Debug, PartialEq, Eq, Structural)]
pub enum DurationChoice {
    OneMinute,
    FiveMinutes,
    FifteenMinutes,
    ThirtyMinutes,
    OneHour,
}

/// The lower-case verb of an action.
pub open spec fn action_label(action: DurationAction) -> Seq<char> {
    match action {
        DurationAction::Start => "start"@,
        DurationAction::Stop => "stop"@,
        DurationAction::Pause => "pause"@,
    }
}

/// The menu label of a duration.
pub open spec fn choice_label(choice: DurationChoice) -> Seq<char> {
    match choice {
        DurationChoice::OneMinute => "1 minute"@,
        DurationChoice::FiveMinutes => "5 minutes"@,
        DurationChoice::FifteenMinutes => "15 minutes"@,
        DurationChoice::ThirtyMinutes => "30 minutes"@,
        DurationChoice::OneHour => "1 hour"@,
    }
}

/// Every duration, shortest first.
pub open spec fn all_choices() -> Seq<DurationChoice> {
    seq![
        DurationChoice::OneMinute,
        DurationChoice::FiveMinutes,
        DurationChoice::FifteenMinutes,
        DurationChoice::ThirtyMinutes,
        DurationChoice::OneHour,
    ]
}

/// The durations a pause may last: all but the one-minute choice.
pub open spec fn pause_choice_seq() -> Seq<DurationChoice> {
    seq![
        DurationChoice::FiveMinutes,
        DurationChoice::FifteenMinutes,
        DurationChoice::ThirtyMinutes,
        DurationChoice::OneHour,
    ]
}

impl DurationAction {
    /// The lower-case verb of the action.
    pub fn label(self) -> (s: &'static str)
        ensures
            s@ == action_label(self),
    {
        match self {
            DurationAction::Start => "start",
            DurationAction::Stop => "stop",
            DurationAction::Pause => "pause",
        }
    }
}

impl DurationChoice {
    /// The menu label of the duration.
    pub fn label(self) -> (s: &'static str)
        ensures
            s@ == choice_label(self),
    {
        match self {
            DurationChoice::OneMinute => "1 minute",
            DurationChoice::FiveMinutes => "5 minutes",
            DurationChoice::FifteenMinutes => "15 minutes",
            DurationChoice::ThirtyMinutes => "30 minutes",
            DurationChoice::OneHour => "1 hour",
        }
    }

    /// Every duration, shortest first.
    pub fn all() -> (v: Vec<DurationChoice>)
        ensures
            v@ == all_choices(),
    {
        let v = vec![
            DurationChoice::OneMinute,
            DurationChoice::FiveMinutes,
            DurationChoice::FifteenMinutes,
            DurationChoice::ThirtyMinutes,
            DurationChoice::OneHour,
        ];
        assert(v@ =~= all_choices());
        v
    }

    /// The durations a pause may last.
    pub fn pause_choices() -> (v: Vec<DurationChoice>)
        ensures
            v@ == pause_choice_seq(),
    {
        let v = vec![
            DurationChoice::FiveMinutes,
            DurationChoice::FifteenMinutes,
            DurationChoice::ThirtyMinutes,
            DurationChoice::OneHour,
        ];
        assert(v@ =~= pause_choice_seq());
        v
    }
}

/// One scheduled action. The deadline is a monotonic instant in nanoseconds.
#[derive(Clone, Copy, Debug, PartialEq, Eq, Structural)]
pub struct ScheduledAction {
    pub action: DurationAction,
    pub duration: DurationChoice,
    pub deadline: u64,
    pub generation: u64,
}

/// The time from `now` until `deadline`, zero once the deadline has passed.
pub open spec fn remaining_spec(deadline: u64, now: u64) -> u64 {
    if deadline > now {
        (deadline - now) as u64
    } else {
        0
    }
}

impl ScheduledAction {
    /// Nanoseconds left until the deadline at the monotonic instant `now`.
    pub fn remaining(&self, now: u64) -> (r: u64)
        ensures
            r == remaining_spec(self.deadline, now),
    {
        if self.deadline > now {
            self.deadline - now
        } else {
            0
        }
    }
}

} // verus!
