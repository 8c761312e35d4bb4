use aegispanel_core::state_machine::{AlarmStatus, StateEvent, StateMachine, SystemState};

fn machine_in(events: Vec<StateEvent>) -> StateMachine {
    let mut m = StateMachine::new();
    for e in events {
        m.transition(e);
    }
    m
}

fn armed_panel() -> StateMachine {
    machine_in(vec![
        StateEvent::InitComplete { configured: true },
        StateEvent::HaConnected,
        StateEvent::AlarmStateChanged(AlarmStatus::ArmedAway),
    ])
}

fn disarmed_panel() -> StateMachine {
    machine_in(vec![
        StateEvent::InitComplete { configured: true },
        StateEvent::HaConnected,
        StateEvent::AlarmStateChanged(AlarmStatus::Disarmed),
    ])
}

#[test]
fn new_machine_boots_with_unknown_alarm() {
    let m = StateMachine::new();
    assert_eq!(m.current_state(), SystemState::Boot);
    assert_eq!(*m.alarm_status(), AlarmStatus::Unknown);
}

#[test]
fn unconfigured_boot_opens_wizard() {
    let mut m = StateMachine::new();
    assert_eq!(m.transition(StateEvent::InitComplete { configured: false }), SystemState::Wizard);
    assert_eq!(m.transition(StateEvent::WizardFinished), SystemState::Connecting);
}

#[test]
fn configured_boot_connects() {
    let mut m = StateMachine::new();
    assert_eq!(m.transition(StateEvent::InitComplete { configured: true }), SystemState::Connecting);
    assert_eq!(m.transition(StateEvent::HaConnected), SystemState::CheckingAlarm);
}

#[test]
fn connecting_failure_goes_offline_and_recovers() {
    let mut m = machine_in(vec![StateEvent::InitComplete { configured: true }]);
    assert_eq!(m.transition(StateEvent::HaDisconnected), SystemState::Offline);
    assert_eq!(m.transition(StateEvent::HaConnected), SystemState::CheckingAlarm);
}

#[test]
fn alarm_reports_choose_the_screen() {
    let m = armed_panel();
    assert_eq!(m.current_state(), SystemState::Security);
    assert_eq!(*m.alarm_status(), AlarmStatus::ArmedAway);
    let m = disarmed_panel();
    assert_eq!(m.current_state(), SystemState::Kiosk);
    let mut m = disarmed_panel();
    assert_eq!(m.transition(StateEvent::AlarmStateChanged(AlarmStatus::Disarming)), SystemState::Offline);
    let mut m = disarmed_panel();
    assert_eq!(m.transition(StateEvent::AlarmStateChanged(AlarmStatus::Triggered)), SystemState::Security);
}

#[test]
fn armed_report_in_sleep_shows_security_at_once() {
    let mut m = disarmed_panel();
    assert_eq!(m.transition(StateEvent::NightModeStart), SystemState::Sleep);
    assert_eq!(m.transition(StateEvent::AlarmStateChanged(AlarmStatus::ArmedNight)), SystemState::Security);
    assert_eq!(*m.alarm_status(), AlarmStatus::ArmedNight);
}

#[test]
fn disarmed_report_in_sleep_keeps_sleeping() {
    let mut m = armed_panel();
    assert_eq!(m.transition(StateEvent::InactivityTimeout), SystemState::Sleep);
    assert_eq!(m.transition(StateEvent::AlarmStateChanged(AlarmStatus::Disarmed)), SystemState::Sleep);
    assert_eq!(*m.alarm_status(), AlarmStatus::Disarmed);
}

#[test]
fn face_match_unlocks_security_screen() {
    let mut m = armed_panel();
    let s = m.transition(StateEvent::FaceRecognized { user: "anna".to_string() });
    assert_eq!(s, SystemState::Kiosk);
    assert_eq!(*m.alarm_status(), AlarmStatus::Disarmed);
}

#[test]
fn face_match_on_kiosk_changes_nothing() {
    let mut m = disarmed_panel();
    assert_eq!(m.transition(StateEvent::FaceRecognized { user: "bob".to_string() }), SystemState::Kiosk);
}

#[test]
fn waking_returns_to_the_alarm_screen() {
    let mut m = armed_panel();
    m.transition(StateEvent::NightModeStart);
    assert_eq!(m.transition(StateEvent::PresenceDetected), SystemState::Waking);
    assert_eq!(m.transition(StateEvent::PresenceDetected), SystemState::Security);

    let mut m = disarmed_panel();
    m.transition(StateEvent::InactivityTimeout);
    assert_eq!(m.transition(StateEvent::NightModeEnd), SystemState::Waking);
    assert_eq!(m.transition(StateEvent::HaConnected), SystemState::Kiosk);
}

#[test]
fn waking_with_unknown_alarm_goes_offline() {
    let mut m = machine_in(vec![
        StateEvent::InitComplete { configured: true },
        StateEvent::HaConnected,
        StateEvent::AlarmStateChanged(AlarmStatus::Disarmed),
        StateEvent::NightModeStart,
        StateEvent::AlarmStateChanged(AlarmStatus::Unknown),
        StateEvent::PresenceDetected,
    ]);
    assert_eq!(m.current_state(), SystemState::Waking);
    assert_eq!(m.transition(StateEvent::OtaStart), SystemState::Offline);
}

#[test]
fn recovery_takes_over_from_every_state() {
    let mut m = disarmed_panel();
    assert_eq!(m.transition(StateEvent::RecoveryTriggered), SystemState::Recovery);
    let mut m = StateMachine::new();
    assert_eq!(m.transition(StateEvent::RecoveryTriggered), SystemState::Recovery);
    let mut m = armed_panel();
    m.transition(StateEvent::NightModeStart);
    m.transition(StateEvent::PresenceDetected);
    assert_eq!(m.current_state(), SystemState::Waking);
    assert_eq!(m.transition(StateEvent::RecoveryTriggered), SystemState::Recovery);
    assert_eq!(m.current_state(), SystemState::Recovery);
    assert_eq!(*m.alarm_status(), AlarmStatus::ArmedAway);
}

#[test]
fn ota_flow() {
    let mut m = disarmed_panel();
    assert_eq!(m.transition(StateEvent::OtaStart), SystemState::Update);
    assert_eq!(m.transition(StateEvent::OtaComplete), SystemState::Connecting);
    let mut m = disarmed_panel();
    m.transition(StateEvent::OtaStart);
    assert_eq!(m.transition(StateEvent::OtaFailed), SystemState::Error);
}

#[test]
fn fatal_error_from_kiosk() {
    let mut m = disarmed_panel();
    assert_eq!(m.transition(StateEvent::FatalError("disk".to_string())), SystemState::Error);
}

#[test]
fn unhandled_events_keep_the_state() {
    let mut m = StateMachine::new();
    assert_eq!(m.transition(StateEvent::HaConnected), SystemState::Boot);
    assert_eq!(m.transition(StateEvent::OtaComplete), SystemState::Boot);
    let mut m = disarmed_panel();
    assert_eq!(m.transition(StateEvent::NightModeEnd), SystemState::Kiosk);
    assert_eq!(m.transition(StateEvent::PresenceDetected), SystemState::Kiosk);
}

#[test]
fn screens_stay_consistent_with_alarm() {
    let events = vec![
        StateEvent::InitComplete { configured: true },
        StateEvent::HaConnected,
        StateEvent::AlarmStateChanged(AlarmStatus::Pending),
        StateEvent::NightModeStart,
        StateEvent::AlarmStateChanged(AlarmStatus::Disarmed),
        StateEvent::PresenceDetected,
        StateEvent::HaConnected,
        StateEvent::AlarmStateChanged(AlarmStatus::ArmedHome),
        StateEvent::FaceRecognized { user: "c".to_string() },
        StateEvent::InactivityTimeout,
        StateEvent::NightModeEnd,
        StateEvent::WizardFinished,
    ];
    let mut m = StateMachine::new();
    for e in events {
        let s = m.transition(e);
        if s == SystemState::Kiosk {
            assert_eq!(*m.alarm_status(), AlarmStatus::Disarmed);
        }
        if s == SystemState::Security {
            assert!(m.alarm_status().is_armed());
        }
    }
}

#[test]
fn armed_statuses() {
    let armed = [
        AlarmStatus::ArmedHome,
        AlarmStatus::ArmedAway,
        AlarmStatus::ArmedNight,
        AlarmStatus::ArmedVacation,
        AlarmStatus::ArmedCustom,
        AlarmStatus::Arming,
        AlarmStatus::Pending,
        AlarmStatus::Triggered,
    ];
    for a in armed {
        assert!(a.is_armed());
    }
    for a in [AlarmStatus::Disarmed, AlarmStatus::Disarming, AlarmStatus::Unknown] {
        assert!(!a.is_armed());
    }
}

#[test]
fn state_display_names() {
    assert_eq!(SystemState::CheckingAlarm.to_string(), "CHECKING_ALARM");
    assert_eq!(SystemState::Security.to_string(), "SECURITY");
    assert_eq!(SystemState::Boot.to_string(), "BOOT");
    let all = [
        SystemState::Boot,
        SystemState::Initializing,
        SystemState::Wizard,
        SystemState::Connecting,
        SystemState::CheckingAlarm,
        SystemState::Security,
        SystemState::Kiosk,
        SystemState::Sleep,
        SystemState::Waking,
        SystemState::Offline,
        SystemState::Update,
        SystemState::Recovery,
        SystemState::Error,
    ];
    for (i, a) in all.iter().enumerate() {
        for (j, b) in all.iter().enumerate() {
            assert_eq!(i == j, a.to_string() == b.to_string());
        }
    }
}
