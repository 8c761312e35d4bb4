use aegispanel_core::config::{
    ConfigManager, FaceIdConfig, HomeAssistantConfig, PowerConfig, SecretsConfig, SystemConfig,
    UpdateConfig, WizardSettings, DEFAULT_CONFIDENCE_THRESHOLD_BITS,
};
use aegispanel_core::power_manager::PowerManager;

fn hm(h: u32, m: u32) -> u32 {
    h * 3600 + m * 60
}

#[test]
fn overnight_window_default_times() {
    let p = PowerManager::new(true, "22:00", "06:30", 60);
    assert!(p.is_night_time_at(hm(23, 0)));
    assert!(p.is_night_time_at(hm(22, 0)));
    assert!(p.is_night_time_at(hm(0, 0)));
    assert!(p.is_night_time_at(hm(6, 29)));
    assert!(!p.is_night_time_at(hm(6, 30)));
    assert!(!p.is_night_time_at(hm(12, 0)));
    assert!(!p.is_night_time_at(hm(21, 59)));
}

#[test]
fn same_day_window() {
    let p = PowerManager::new(true, "13:00", "14:15", 60);
    assert!(p.is_night_time_at(hm(13, 0)));
    assert!(p.is_night_time_at(hm(14, 14)));
    assert!(!p.is_night_time_at(hm(14, 15)));
    assert!(!p.is_night_time_at(hm(12, 59)));
}

#[test]
fn unreadable_times_fall_back_to_defaults() {
    let p = PowerManager::new(true, "late", "25:00", 60);
    assert!(p.is_night_time_at(hm(22, 0)));
    assert!(p.is_night_time_at(hm(6, 29)));
    assert!(!p.is_night_time_at(hm(6, 30)));
    assert!(!p.is_night_time_at(hm(21, 59)));
}

#[test]
fn unreadable_start_keeps_readable_end() {
    let p = PowerManager::new(true, "late", "07:15", 90);
    assert!(p.is_display_on());
    assert_eq!(p.inactivity_timeout_secs(), 90);
    assert!(p.is_night_time_at(hm(22, 0)));
    assert!(p.is_night_time_at(hm(7, 14)));
    assert!(!p.is_night_time_at(hm(7, 15)));
    assert!(!p.is_night_time_at(hm(21, 59)));
}

#[test]
fn disabled_night_mode_is_never_night() {
    let p = PowerManager::new(false, "22:00", "06:30", 60);
    for h in 0..24 {
        assert!(!p.is_night_time_at(hm(h, 0)));
    }
    assert!(!p.is_night_time());
}

#[test]
fn display_power_switches_once() {
    let mut p = PowerManager::new(true, "22:00", "06:30", 90);
    assert!(p.is_display_on());
    assert_eq!(p.inactivity_timeout_secs(), 90);
    assert_eq!(p.set_display_power(true), None);
    assert_eq!(p.set_display_power(false).as_deref(), Some("1"));
    assert!(!p.is_display_on());
    assert_eq!(p.set_display_power(false), None);
    assert_eq!(p.set_display_power(true).as_deref(), Some("0"));
}

#[test]
fn defaults() {
    let s = SystemConfig::default();
    assert_eq!(s.language, "de");
    assert_eq!(s.hostname, "aegispanel");
    assert!(!s.first_boot_complete);
    assert_eq!(s.kiosk_url, "");
    let p = PowerConfig::default();
    assert!(p.night_mode_enabled);
    assert_eq!(p.night_mode_start, "22:00");
    assert_eq!(p.night_mode_end, "06:30");
    assert_eq!(p.inactivity_timeout_secs, 60);
    assert_eq!(p.mmwave_distance_cm, 100);
    let h = HomeAssistantConfig::default();
    assert_eq!(h.alarmo_entity_id, "alarm_control_panel.alarmo");
    let f = FaceIdConfig::default();
    assert!(!f.enabled);
    assert!(f.auto_disarm);
    assert_eq!(f.camera_device, "/dev/video0");
    assert_eq!(f32::from_bits(f.confidence_threshold_bits), 0.80f32);
    assert_eq!(f.confidence_threshold_bits, DEFAULT_CONFIDENCE_THRESHOLD_BITS);
    let u = UpdateConfig::default();
    assert_eq!(u.github_repo, "moinmoin-64/aegispanel");
    assert_eq!(u.channel, "stable");
    assert!(u.auto_check);
    assert_eq!(u.check_interval_hours, 6);
    let sc = SecretsConfig::default();
    assert_eq!(sc.ha_access_token, "");
}

fn loaded_defaults() -> ConfigManager {
    ConfigManager::from_loaded(None, None, None, None, None, None)
}

#[test]
fn missing_files_give_defaults_and_read_files_win() {
    let c = loaded_defaults();
    assert!(!c.is_configured());
    assert_eq!(c.update.github_repo, "moinmoin-64/aegispanel");
    let ha = HomeAssistantConfig { url: "https://ha".to_string(), alarmo_entity_id: "x".to_string() };
    let c = ConfigManager::from_loaded(None, None, Some(ha), None, None, None);
    assert_eq!(c.ha.url, "https://ha");
    assert_eq!(c.ha.alarmo_entity_id, "x");
    assert_eq!(c.system.language, "de");
}

#[test]
fn wizard_configures_the_panel() {
    let mut c = loaded_defaults();
    let settings = WizardSettings {
        ha_url: "https://ha.example.com".to_string(),
        ha_token: "llat".to_string(),
        wifi_ssid: "home".to_string(),
        wifi_psk: "secret".to_string(),
        language: "en".to_string(),
        face_id_enabled: Some(true),
        face_id_auto_disarm: None,
    };
    c.apply_wizard_config(&settings);
    assert!(c.is_configured());
    assert!(c.system.first_boot_complete);
    assert_eq!(c.system.language, "en");
    assert_eq!(c.ha.url, "https://ha.example.com");
    assert_eq!(c.secrets.ha_access_token, "llat");
    assert_eq!(c.secrets.wifi_ssid, "home");
    assert_eq!(c.secrets.wifi_psk, "secret");
    assert!(c.face_id.enabled);
    assert!(c.face_id.auto_disarm);
    assert!(c.face_id_active());
}

#[test]
fn wizard_without_url_leaves_panel_unconfigured() {
    let mut c = loaded_defaults();
    let settings = WizardSettings {
        ha_url: String::new(),
        ha_token: String::new(),
        wifi_ssid: String::new(),
        wifi_psk: String::new(),
        language: "de".to_string(),
        face_id_enabled: None,
        face_id_auto_disarm: Some(false),
    };
    c.apply_wizard_config(&settings);
    assert!(!c.is_configured());
    assert!(!c.face_id.auto_disarm);
    assert!(!c.face_id_active());
}

#[test]
fn update_interval_and_token() {
    let mut u = UpdateConfig::default();
    assert_eq!(u.check_interval_secs(), 6 * 3600);
    u.check_interval_hours = 0;
    assert_eq!(u.check_interval_secs(), 3600);
    u.check_interval_hours = u32::MAX;
    assert_eq!(u.check_interval_secs(), u32::MAX as u64 * 3600);
    assert_eq!(u.token(), None);
    u.github_token = "ghp".to_string();
    assert_eq!(u.token().as_deref(), Some("ghp"));
    assert!(u.background_check_enabled());
    u.github_repo = String::new();
    assert!(!u.background_check_enabled());
}
