use aegispanel_core::face_id::{recognize_request, recognized_user, should_attempt_recognition, FaceMatch};
use aegispanel_core::gpio_manager::{GpioEvent, GpioManager, DEFAULT_ESP32_WAKE_PIN, DEFAULT_RECOVERY_JUMPER_PIN};
use aegispanel_core::ha_client::HaEvent;
use aegispanel_core::panel::{install_window_open, Panel};
use aegispanel_core::power_manager::PowerManager;
use aegispanel_core::recovery::{append_decimal, http_response, RecoveryAction};
use aegispanel_core::state_machine::{AlarmStatus, SystemState};

const NIGHT: u32 = 23 * 3600;
const DAY: u32 = 12 * 3600;

fn panel(face_id: bool) -> Panel {
    Panel::new(PowerManager::new(true, "22:00", "06:30", 60), face_id)
}

fn panel_showing(status: AlarmStatus, face_id: bool) -> Panel {
    let mut p = panel(face_id);
    p.boot(true);
    p.on_ha_event(HaEvent::Connected);
    p.on_ha_event(HaEvent::AlarmStateUpdated(status));
    p
}

#[test]
fn boot_follows_configuration() {
    let mut p = panel(false);
    assert_eq!(p.boot(false), SystemState::Wizard);
    let mut p = panel(false);
    assert_eq!(p.boot(true), SystemState::Connecting);
    assert!(p.display_on());
}

#[test]
fn night_blanks_the_kiosk() {
    let mut p = panel_showing(AlarmStatus::Disarmed, false);
    assert_eq!(p.current_state(), SystemState::Kiosk);
    let fx = p.on_tick_at(NIGHT, 0);
    assert_eq!(fx.backlight.as_deref(), Some("1"));
    assert_eq!(p.current_state(), SystemState::Sleep);
    assert!(!p.display_on());
    let fx = p.on_tick_at(NIGHT, 0);
    assert_eq!(fx.backlight, None);
}

#[test]
fn night_never_blanks_the_security_screen() {
    let mut p = panel_showing(AlarmStatus::ArmedAway, false);
    let fx = p.on_tick_at(NIGHT, 10_000);
    assert_eq!(fx.backlight, None);
    assert_eq!(p.current_state(), SystemState::Security);
    assert!(p.display_on());
}

#[test]
fn idle_kiosk_sleeps_after_timeout() {
    let mut p = panel_showing(AlarmStatus::Disarmed, false);
    let fx = p.on_tick_at(DAY, 60);
    assert_eq!(fx.backlight, None);
    assert_eq!(p.current_state(), SystemState::Kiosk);
    let fx = p.on_tick_at(DAY, 61);
    assert_eq!(fx.backlight.as_deref(), Some("1"));
    assert_eq!(p.current_state(), SystemState::Sleep);
}

#[test]
fn armed_report_wakes_a_sleeping_panel() {
    let mut p = panel_showing(AlarmStatus::Disarmed, false);
    p.on_tick_at(NIGHT, 0);
    assert!(!p.display_on());
    let fx = p.on_ha_event(HaEvent::AlarmStateUpdated(AlarmStatus::ArmedHome));
    assert_eq!(fx.backlight.as_deref(), Some("0"));
    assert_eq!(p.current_state(), SystemState::Security);
    assert!(p.display_on());
}

#[test]
fn presence_wakes_and_starts_face_id_when_armed() {
    let mut p = panel_showing(AlarmStatus::ArmedAway, true);
    let fx = p.on_presence();
    assert!(fx.start_face_id);
    assert!(p.presence_active());
    let mut p = panel_showing(AlarmStatus::Disarmed, true);
    p.on_tick_at(NIGHT, 0);
    let fx = p.on_presence();
    assert!(!fx.start_face_id);
    assert_eq!(fx.backlight.as_deref(), Some("0"));
    assert_eq!(p.current_state(), SystemState::Waking);
    let mut p = panel_showing(AlarmStatus::ArmedAway, false);
    assert!(!p.on_presence().start_face_id);
    p.on_presence_gone();
    assert!(!p.presence_active());
}

#[test]
fn recognised_face_disarms_and_unlocks() {
    let mut p = panel_showing(AlarmStatus::ArmedAway, true);
    let fx = p.on_face_recognized("anna".to_string());
    let d = fx.disarm.expect("disarm request");
    assert_eq!(d.pin, "");
    assert_eq!(d.entity_id, "");
    assert_eq!(p.current_state(), SystemState::Kiosk);
    assert_eq!(p.alarm_status(), AlarmStatus::Disarmed);
}

#[test]
fn disconnect_lights_display_and_goes_offline() {
    let mut p = panel_showing(AlarmStatus::Disarmed, false);
    p.on_tick_at(DAY, 61);
    assert!(!p.display_on());
    let fx = p.on_ha_event(HaEvent::Disconnected);
    assert_eq!(fx.backlight.as_deref(), Some("0"));
    assert_eq!(p.current_state(), SystemState::Sleep);
    let mut p = panel_showing(AlarmStatus::Disarmed, false);
    p.on_ha_event(HaEvent::Disconnected);
    assert_eq!(p.current_state(), SystemState::Offline);
}

#[test]
fn disarm_results() {
    let mut p = panel_showing(AlarmStatus::ArmedAway, false);
    p.on_ha_event(HaEvent::DisarmResult { success: false, message: Some("PIN Falsch".to_string()) });
    assert_eq!(p.current_state(), SystemState::Security);
    p.on_ha_event(HaEvent::DisarmResult { success: true, message: None });
    assert_eq!(p.current_state(), SystemState::Kiosk);
}

#[test]
fn recovery_jumper_while_running() {
    let mut p = panel_showing(AlarmStatus::Disarmed, false);
    assert_eq!(p.on_recovery_jumper(), SystemState::Recovery);
}

#[test]
fn recovery_jumper_while_waking() {
    let mut p = panel_showing(AlarmStatus::Disarmed, false);
    p.on_tick_at(NIGHT, 0);
    p.on_presence();
    assert_eq!(p.current_state(), SystemState::Waking);
    assert_eq!(p.on_recovery_jumper(), SystemState::Recovery);
    assert_eq!(p.alarm_status(), AlarmStatus::Disarmed);
}

#[test]
fn updates_wait_for_the_security_screen_to_close() {
    assert!(!install_window_open(SystemState::Security));
    assert!(install_window_open(SystemState::Kiosk));
    assert!(install_window_open(SystemState::Sleep));
}

#[test]
fn face_id_decisions() {
    assert!(should_attempt_recognition(true, SystemState::Security, true));
    assert!(!should_attempt_recognition(true, SystemState::Kiosk, true));
    assert!(!should_attempt_recognition(true, SystemState::Security, false));
    assert!(!should_attempt_recognition(false, SystemState::Security, true));
    let confident = || Some(FaceMatch { name: "bob".to_string(), meets_threshold: true });
    assert_eq!(recognized_user(Some("anna".to_string()), confident()).as_deref(), Some("anna"));
    assert_eq!(recognized_user(None, confident()).as_deref(), Some("bob"));
    assert_eq!(recognized_user(None, Some(FaceMatch { name: "bob".to_string(), meets_threshold: false })), None);
    assert_eq!(recognized_user(None, None), None);
    let (url, auth) = recognize_request("https://ha.local/", "tok");
    assert_eq!(url, "https://ha.local/api/app/double_take/api/recognize");
    assert_eq!(auth, "Bearer tok");
}

#[test]
fn gpio_decisions() {
    let g = GpioManager::new(DEFAULT_ESP32_WAKE_PIN, DEFAULT_RECOVERY_JUMPER_PIN);
    assert_eq!(g.wake_pin(), 4);
    assert_eq!(g.recovery_pin(), 21);
    assert!(GpioManager::jumper_active(Some(true)));
    assert!(!GpioManager::jumper_active(Some(false)));
    assert!(!GpioManager::jumper_active(None));
    assert_eq!(GpioManager::wake_edge_event(true), GpioEvent::PresenceWakeTriggered);
    assert_eq!(GpioManager::wake_edge_event(false), GpioEvent::PresenceGone);
}

#[test]
fn recovery_routes() {
    assert_eq!(RecoveryAction::from_request_line("POST /api/factory_reset HTTP/1.1\r\n"), RecoveryAction::FactoryReset);
    assert_eq!(RecoveryAction::from_request_line("POST /api/rollback HTTP/1.1\r\n"), RecoveryAction::Rollback);
    assert_eq!(RecoveryAction::from_request_line("POST /api/reboot HTTP/1.1\r\n"), RecoveryAction::Reboot);
    assert_eq!(RecoveryAction::from_request_line("GET /api/reboot HTTP/1.1\r\n"), RecoveryAction::Info);
    assert_eq!(RecoveryAction::from_request_line(""), RecoveryAction::Info);
    assert!(RecoveryAction::Reboot.triggers_reboot());
    assert!(!RecoveryAction::Info.triggers_reboot());
}

#[test]
fn recovery_http_response() {
    let body = RecoveryAction::Reboot.response_body();
    assert_eq!(body, r#"{"status":"ok","message":"Rebooting system..."}"#);
    let resp = http_response(body);
    assert_eq!(
        resp,
        format!(
            "HTTP/1.1 200 OK\r\nContent-Type: application/json\r\nContent-Length: {}\r\nConnection: close\r\n\r\n{}",
            body.len(),
            body
        )
    );
    let resp = http_response("ü");
    assert!(resp.contains("Content-Length: 2\r\n"));
}

#[test]
fn decimal_rendering() {
    for n in [0u64, 7, 10, 99, 100, 65535, u64::MAX] {
        let mut s = String::from("n=");
        append_decimal(&mut s, n);
        assert_eq!(s, format!("n={}", n));
    }
}
