use true_tick::decisions::SURFACE_RECOVERY_ATTEMPTS;
use true_tick::recovery::{
    heartbeat_sample, PowerBroadcastAction, PowerDebounce, RecoveryOutcome, Responsiveness,
    ResponsivenessChange, SurfaceRecovery, SURFACE_RECOVERY_SPACING_NS,
};
use true_tick::timing::PowerState;

#[test]
fn surface_recovery_succeeds_within_attempt_budget() {
    let mut recovery = SurfaceRecovery::new();
    assert_eq!(
        recovery.advance(false, 10),
        RecoveryOutcome::Retry { attempt: 1 }
    );
    assert_eq!(recovery.attempts, 1);
    assert_eq!(recovery.due, Some(10 + SURFACE_RECOVERY_SPACING_NS));
    assert_eq!(
        recovery.advance(true, 20),
        RecoveryOutcome::Recovered { attempt: 2 }
    );
    assert_eq!(recovery, SurfaceRecovery::new());
}

#[test]
fn surface_recovery_exhaustion_stays_in_surface_degraded() {
    let mut recovery = SurfaceRecovery::new();
    let mut last = RecoveryOutcome::Retry { attempt: 0 };
    for _ in 0..SURFACE_RECOVERY_ATTEMPTS {
        last = recovery.advance(false, 0);
    }
    assert_eq!(
        last,
        RecoveryOutcome::Exhausted {
            attempts: SURFACE_RECOVERY_ATTEMPTS
        }
    );
    assert!(recovery.exhausted);
    assert_eq!(recovery.due, None);
    assert!(!recovery.service(true, false, u64::MAX));
}

#[test]
fn surface_recovery_is_scheduled_then_attempted_when_due() {
    let mut recovery = SurfaceRecovery::new();
    assert!(!recovery.service(false, false, 5));
    assert_eq!(recovery.due, None);
    assert!(!recovery.service(true, true, 5));
    assert!(!recovery.service(true, false, 5));
    assert_eq!(recovery.due, Some(5 + SURFACE_RECOVERY_SPACING_NS));
    assert!(!recovery.service(true, false, 6));
    assert!(recovery.service(true, false, 5 + SURFACE_RECOVERY_SPACING_NS));
}

#[test]
fn power_debounce_confirms_only_a_stable_state() {
    let mut debounce = PowerDebounce::new();
    assert_eq!(
        debounce.on_broadcast(PowerState::Ac, false),
        PowerBroadcastAction::Start {
            replaced_other_state: false
        }
    );
    assert_eq!(
        debounce.on_broadcast(PowerState::Ac, false),
        PowerBroadcastAction::Extend
    );
    assert_eq!(
        debounce.on_broadcast(PowerState::Battery, false),
        PowerBroadcastAction::Start {
            replaced_other_state: true
        }
    );
    assert!(!debounce.on_timer(PowerState::Ac));
    assert_eq!(debounce, PowerDebounce::new());
    debounce.on_broadcast(PowerState::Battery, false);
    assert!(debounce.on_timer(PowerState::Battery));
}

#[test]
fn battery_saver_releases_at_once_and_cancels_the_debounce() {
    let mut debounce = PowerDebounce::new();
    assert_eq!(
        debounce.on_broadcast(PowerState::BatterySaver, true),
        PowerBroadcastAction::ReleaseNow {
            killed_debounce: false
        }
    );
    debounce.on_broadcast(PowerState::Ac, false);
    assert_eq!(
        debounce.on_broadcast(PowerState::BatterySaver, true),
        PowerBroadcastAction::ReleaseNow {
            killed_debounce: true
        }
    );
    assert_eq!(debounce, PowerDebounce::new());
}

#[test]
fn heartbeat_lateness_and_stall_reports() {
    assert_eq!(heartbeat_sample(1_000, 1_000, false, 5_000), 0);
    assert_eq!(heartbeat_sample(1_250, 1_000, false, 5_000), 250);
    assert_eq!(heartbeat_sample(500, 1_000, false, 5_000), 0);
    assert_eq!(heartbeat_sample(1_250, 1_000, true, 5_000), 5_000);
    assert_eq!(heartbeat_sample(9_000, 1_000, true, 5_000), 8_000);
}

#[test]
fn responsiveness_warns_once_per_degraded_episode() {
    let mut state = Responsiveness {
        degraded: false,
        notified: false,
    };
    assert_eq!(state.follow(false), ResponsivenessChange::Unchanged);
    assert_eq!(
        state.follow(true),
        ResponsivenessChange::Degraded { notify: true }
    );
    assert_eq!(state.follow(true), ResponsivenessChange::Unchanged);
    assert_eq!(state.follow(false), ResponsivenessChange::Recovered);
    assert_eq!(
        state,
        Responsiveness {
            degraded: false,
            notified: false,
        }
    );
    let mut told = Responsiveness {
        degraded: false,
        notified: true,
    };
    assert_eq!(
        told.follow(true),
        ResponsivenessChange::Degraded { notify: false }
    );
}
