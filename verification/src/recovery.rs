//! State machines the tray window drives from its timers and power broadcasts: recreating a
//! lost tray icon within a bounded budget, debouncing power-source changes, and tracking the
//! responsiveness of the message pump. Each step takes the event and the current time and
//! returns what the window has to do; the window performs it.
use vstd::prelude::*;

use crate::decisions::{SURFACE_RECOVERY_ATTEMPTS, SURFACE_RECOVERY_SPACING_MS};
use crate::timing::PowerState;

verus! {

/// Nanoseconds between two surface recovery attempts.
pub const SURFACE_RECOVERY_SPACING_NS: u64 = 2_000_000_000;

/// The recovery of a lost tray icon: the attempts made, whether the budget is spent, and the
/// monotonic instant (in nanoseconds) of the next attempt.
#[derive(Clone, Copy, Debug, PartialEq, Eq, Structural)]
pub struct SurfaceRecovery {
    pub attempts: u32,
    pub exhausted: bool,
    pub due: Option<u64>,
}

/// The outcome of one recovery attempt.
#[derive(Clone, Copy, Debug, PartialEq, Eq, Structural)]
pub enum RecoveryOutcome {
    /// The icon is back after this attempt; the wake timer stops.
    Recovered { attempt: u32 },
    /// The attempt failed and the next one is scheduled.
    Retry { attempt: u32 },
    /// The attempt failed and the budget is spent; the wake timer stops.
    Exhausted { attempts: u32 },
}

/// The instant `spacing` after `now`, saturating.
pub open spec fn after(now: u64, spacing: u64) -> u64 {
    if now + spacing > u64::MAX {
        u64::MAX
    } else {
        (now + spacing) as u64
    }
}

impl SurfaceRecovery {
    /// No attempt made and none scheduled.
    pub fn new() -> (r: SurfaceRecovery)
        ensures
            r == (SurfaceRecovery { attempts: 0, exhausted: false, due: None }),
    {
        SurfaceRecovery { attempts: 0, exhausted: false, due: None }
    }

    /// One wake-up: only a degraded surface without an icon and with budget left recovers. The
    /// first wake-up schedules the attempt one spacing later; a later wake-up attempts once the
    /// due instant is reached. Returns whether to attempt now.
    pub fn service(&mut self, surface_degraded: bool, icon_present: bool, now: u64) -> (attempt:
        bool)
        ensures
            final(self).attempts == old(self).attempts,
            final(self).exhausted == old(self).exhausted,
            (!surface_degraded || icon_present || old(self).exhausted) ==> !attempt && *final(self)
                == *old(self),
            (surface_degraded && !icon_present && !old(self).exhausted) ==> match old(self).due {
                None => !attempt && final(self).due == Some(
                    after(now, SURFACE_RECOVERY_SPACING_NS),
                ),
                Some(due) => attempt == (now >= due) && final(self).due == old(self).due,
            },
    {
        if !surface_degraded || icon_present || self.exhausted {
            return false;
        }
        match self.due {
            None => {
                self.due = Some(now.saturating_add(SURFACE_RECOVERY_SPACING_NS));
                false
            },
            Some(due) => now >= due,
        }
    }

    /// Records one attempt's result: a success resets the budget; a failure schedules the next
    /// attempt, or spends the budget once it reaches its limit.
    pub fn advance(&mut self, recovered: bool, now: u64) -> (outcome: RecoveryOutcome)
        ensures
            (*final(self), outcome) == advanced(*old(self), recovered, now),
    {
        self.attempts = if self.attempts < u32::MAX {
            self.attempts + 1
        } else {
            u32::MAX
        };
        let attempt = self.attempts;
        if recovered {
            self.due = None;
            self.attempts = 0;
            return RecoveryOutcome::Recovered { attempt };
        }
        if self.attempts >= SURFACE_RECOVERY_ATTEMPTS {
            self.exhausted = true;
            self.due = None;
            RecoveryOutcome::Exhausted { attempts: self.attempts }
        } else {
            self.due = Some(now.saturating_add(SURFACE_RECOVERY_SPACING_NS));
            RecoveryOutcome::Retry { attempt }
        }
    }
}

/// The recovery state and outcome after one attempt: the attempt count grows by one
/// (saturating); a success resets it and unschedules; a failure below the budget schedules the
/// next attempt one spacing after `now`; a failure that reaches the budget spends it.
pub open spec fn advanced(r: SurfaceRecovery, recovered: bool, now: u64) -> (
    SurfaceRecovery,
    RecoveryOutcome,
) {
    let attempt = if r.attempts < u32::MAX {
        (r.attempts + 1) as u32
    } else {
        u32::MAX
    };
    if recovered {
        (
            SurfaceRecovery { attempts: 0, due: None, ..r },
            RecoveryOutcome::Recovered { attempt },
        )
    } else if attempt >= SURFACE_RECOVERY_ATTEMPTS {
        (
            SurfaceRecovery { attempts: attempt, exhausted: true, due: None },
            RecoveryOutcome::Exhausted { attempts: attempt },
        )
    } else {
        (
            SurfaceRecovery {
                attempts: attempt,
                exhausted: r.exhausted,
                due: Some(after(now, SURFACE_RECOVERY_SPACING_NS)),
            },
            RecoveryOutcome::Retry { attempt },
        )
    }
}

/// The recovery state after `k` failed attempts from a fresh start.
pub open spec fn failed_attempts(k: nat, now: u64) -> SurfaceRecovery
    decreases k,
{
    if k == 0 {
        SurfaceRecovery { attempts: 0, exhausted: false, due: None }
    } else {
        advanced(failed_attempts((k - 1) as nat, now), false, now).0
    }
}

/// From a fresh start, each failed attempt below the budget is reported as a retry and
/// schedules another one, and the attempt that reaches the budget is reported as exhausted and
/// spends it; an exhausted recovery is never serviced again.
pub proof fn lemma_recovery_budget(k: nat, now: u64)
    requires
        1 <= k <= SURFACE_RECOVERY_ATTEMPTS,
    ensures
        failed_attempts(k, now).attempts == k,
        failed_attempts(k, now).exhausted == (k == SURFACE_RECOVERY_ATTEMPTS),
        (k < SURFACE_RECOVERY_ATTEMPTS) == (failed_attempts(k, now).due is Some),
        advanced(failed_attempts((k - 1) as nat, now), false, now).1 == (if k
            < SURFACE_RECOVERY_ATTEMPTS {
            RecoveryOutcome::Retry { attempt: k as u32 }
        } else {
            RecoveryOutcome::Exhausted { attempts: k as u32 }
        }),
    decreases k,
{
    if k > 1 {
        lemma_recovery_budget((k - 1) as nat, now);
    } else {
        assert(failed_attempts(0, now) == SurfaceRecovery { attempts: 0, exhausted: false, due: None });
    }
}

/// The spacing constant in milliseconds and in nanoseconds agree.
pub proof fn lemma_recovery_spacing_units()
    ensures
        SURFACE_RECOVERY_SPACING_NS == SURFACE_RECOVERY_SPACING_MS * 1_000_000,
{
}

/// Debouncing of power-source changes: whether a debounce timer runs and the power state it
/// waits to see confirmed.
#[derive(Clone, Copy, Debug, PartialEq, Eq, Structural)]
pub struct PowerDebounce {
    pub active: bool,
    pub target: Option<PowerState>,
}

/// What the window does for a power broadcast.
#[derive(Clone, Copy, Debug, PartialEq, Eq, Structural)]
pub enum PowerBroadcastAction {
    /// Battery saver releases at once; a running debounce timer is killed first.
    ReleaseNow { killed_debounce: bool },
    /// The same state was reported again; the timer is set again.
    Extend,
    /// A new candidate state starts the timer; a timer for a different state is killed first.
    Start { replaced_other_state: bool },
}

impl PowerDebounce {
    /// No debounce running.
    pub fn new() -> (d: PowerDebounce)
        ensures
            d == (PowerDebounce { active: false, target: None }),
    {
        PowerDebounce { active: false, target: None }
    }

    /// Handles a power broadcast that reports `current`.
    pub fn on_broadcast(&mut self, current: PowerState, battery_saver: bool) -> (action:
        PowerBroadcastAction)
        ensures
            battery_saver ==> action == (PowerBroadcastAction::ReleaseNow {
                killed_debounce: old(self).active,
            }) && *final(self) == (if old(self).active {
                PowerDebounce { active: false, target: None }
            } else {
                *old(self)
            }),
            !battery_saver && old(self).target == Some(current) ==> action
                == PowerBroadcastAction::Extend && *final(self) == *old(self),
            !battery_saver && old(self).target != Some(current) ==> action == (
            PowerBroadcastAction::Start { replaced_other_state: old(self).target is Some })
                && *final(self) == (PowerDebounce { active: true, target: Some(current) }),
    {
        if battery_saver {
            let killed = self.active;
            if self.active {
                self.active = false;
                self.target = None;
            }
            return PowerBroadcastAction::ReleaseNow { killed_debounce: killed };
        }
        let mut replaced = false;
        match self.target {
            Some(target) => {
                if target == current {
                    return PowerBroadcastAction::Extend;
                }
                self.active = false;
                self.target = None;
                replaced = true;
            },
            None => {},
        }
        self.active = true;
        self.target = Some(current);
        PowerBroadcastAction::Start { replaced_other_state: replaced }
    }

    /// The debounce timer fired: the debounce ends, and the change is applied only when the
    /// power state is still the one it waited for.
    pub fn on_timer(&mut self, current: PowerState) -> (release: bool)
        ensures
            *final(self) == (PowerDebounce { active: false, target: None }),
            release == (old(self).target == Some(current)),
    {
        self.active = false;
        let target = self.target;
        self.target = None;
        match target {
            Some(t) => t == current,
            None => false,
        }
    }
}

/// How late a heartbeat fired, in milliseconds: the time since the previous one beyond the
/// heartbeat interval; a pending stall report raises it to at least the stall threshold.
pub open spec fn heartbeat_sample_spec(
    elapsed_ms: u64,
    interval_ms: u64,
    stall_reported: bool,
    stall_threshold_ms: u64,
) -> u64 {
    let lateness = if elapsed_ms > interval_ms {
        (elapsed_ms - interval_ms) as u64
    } else {
        0
    };
    if stall_reported && lateness < stall_threshold_ms {
        stall_threshold_ms
    } else {
        lateness
    }
}

/// The lateness sample of one heartbeat.
pub fn heartbeat_sample(
    elapsed_ms: u64,
    interval_ms: u64,
    stall_reported: bool,
    stall_threshold_ms: u64,
) -> (sample: u64)
    ensures
        sample == heartbeat_sample_spec(elapsed_ms, interval_ms, stall_reported, stall_threshold_ms),
{
    let lateness = elapsed_ms.saturating_sub(interval_ms);
    if stall_reported && lateness < stall_threshold_ms {
        stall_threshold_ms
    } else {
        lateness
    }
}

/// Whether the pump is shown degraded, and whether the user was told so.
#[derive(Clone, Copy, Debug, PartialEq, Eq, Structural)]
pub struct Responsiveness {
    pub degraded: bool,
    pub notified: bool,
}

/// What a responsiveness change asks the window to do.
#[derive(Clone, Copy, Debug, PartialEq, Eq, Structural)]
pub enum ResponsivenessChange {
    Unchanged,
    /// The pump became slow: publish, and warn the user when `notify` is set.
    Degraded { notify: bool },
    /// The pump recovered: publish.
    Recovered,
}

impl Responsiveness {
    /// Follows the responsiveness verdict of one heartbeat. Entering the degraded state warns
    /// once until the pump recovers.
    pub fn follow(&mut self, degraded_now: bool) -> (change: ResponsivenessChange)
        ensures
            degraded_now && !old(self).degraded ==> change == (ResponsivenessChange::Degraded {
                notify: !old(self).notified,
            }) && *final(self) == (Responsiveness { degraded: true, notified: true }),
            !degraded_now && old(self).degraded ==> change == ResponsivenessChange::Recovered
                && *final(self) == (Responsiveness { degraded: false, notified: false }),
            degraded_now == old(self).degraded ==> change == ResponsivenessChange::Unchanged
                && *final(self) == *old(self),
    {
        if degraded_now && !self.degraded {
            self.degraded = true;
            let notify = !self.notified;
            self.notified = true;
            ResponsivenessChange::Degraded { notify }
        } else if !degraded_now && self.degraded {
            self.degraded = false;
            self.notified = false;
            ResponsivenessChange::Recovered
        } else {
            ResponsivenessChange::Unchanged
        }
    }
}

} // verus!
