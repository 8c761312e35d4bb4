use vstd::prelude::*;
use vstd::string::*;

verus! {

pub const CONFIG_DIR: &'static str = "/etc/aegispanel";
pub const SECRETS_FILE: &'static str = "/etc/aegispanel/secrets.json";
pub const SYSTEM_CONFIG_FILE: &'static str = "/etc/aegispanel/system.json";
pub const POWER_CONFIG_FILE: &'static str = "/etc/aegispanel/power.json";
pub const HA_CONFIG_FILE: &'static str = "/etc/aegispanel/homeassistant.json";
pub const UPDATE_CONFIG_FILE: &'static str = "/etc/aegispanel/update.json";
pub const FACE_ID_CONFIG_FILE: &'static str = "/etc/aegispanel/faceid.json";

/// The bit pattern of the `f32` value 0.80, the default face match threshold.
pub const DEFAULT_CONFIDENCE_THRESHOLD_BITS: u32 = 0x3F4C_CCCD;

#[derive(Debug, Clone)]
pub struct SystemConfig {
    pub language: String,
    pub hostname: String,
    pub first_boot_complete: bool,
    pub kiosk_url: String,
}

impl Default for SystemConfig {
    fn default() -> (r: Self)
        ensures
            r.language@ == "de"@,
            r.hostname@ == "aegispanel"@,
            !r.first_boot_complete,
            r.kiosk_url@ == ""@,
    {
        SystemConfig {
            language: "de".to_owned(),
            hostname: "aegispanel".to_owned(),
            first_boot_complete: false,
            kiosk_url: "".to_owned(),
        }
    }
}

#[derive(Debug, Clone)]
pub struct PowerConfig {
    pub night_mode_enabled: bool,
    /// e.g. `22:00`
    pub night_mode_start: String,
    /// e.g. `06:30`
    pub night_mode_end: String,
    pub inactivity_timeout_secs: u64,
    pub mmwave_wake_enabled: bool,
    pub mmwave_distance_cm: u16,
}

impl Default for PowerConfig {
    fn default() -> (r: Self)
        ensures
            r.night_mode_enabled,
            r.night_mode_start@ == "22:00"@,
            r.night_mode_end@ == "06:30"@,
            r.inactivity_timeout_secs == 60,
            r.mmwave_wake_enabled,
            r.mmwave_distance_cm == 100,
    {
        PowerConfig {
            night_mode_enabled: true,
            night_mode_start: "22:00".to_owned(),
            night_mode_end: "06:30".to_owned(),
            inactivity_timeout_secs: 60,
            mmwave_wake_enabled: true,
            mmwave_distance_cm: 100,
        }
    }
}

#[derive(Debug, Clone)]
pub struct HomeAssistantConfig {
    /// e.g. `https://ha.example.com` or `http://192.168.1.50:8123`
    pub url: String,
    pub alarmo_entity_id: String,
}

impl Default for HomeAssistantConfig {
    fn default() -> (r: Self)
        ensures
            r.url@ == ""@,
            r.alarmo_entity_id@ == "alarm_control_panel.alarmo"@,
    {
        HomeAssistantConfig {
            url: "".to_owned(),
            alarmo_entity_id: "alarm_control_panel.alarmo".to_owned(),
        }
    }
}

/// Face ID settings. The match threshold is an `f32` kept by its bit pattern
/// (`f32::to_bits`), since only the recogniser compares with it.
#[derive(Debug, Clone)]
pub struct FaceIdConfig {
    pub enabled: bool,
    /// e.g. `/dev/video0`
    pub camera_device: String,
    pub auto_disarm: bool,
    pub confidence_threshold_bits: u32,
}

impl Default for FaceIdConfig {
    fn default() -> (r: Self)
        ensures
            !r.enabled,
            r.camera_device@ == "/dev/video0"@,
            r.auto_disarm,
            r.confidence_threshold_bits == DEFAULT_CONFIDENCE_THRESHOLD_BITS,
    {
        FaceIdConfig {
            enabled: false,
            camera_device: "/dev/video0".to_owned(),
            auto_disarm: true,
            confidence_threshold_bits: DEFAULT_CONFIDENCE_THRESHOLD_BITS,
        }
    }
}

#[derive(Debug, Clone)]
pub struct UpdateConfig {
    /// e.g. `owner/panel`
    pub github_repo: String,
    /// Optional access token for a private repository.
    pub github_token: String,
    /// `stable` or `beta`
    pub channel: String,
    pub auto_check: bool,
    pub check_interval_hours: u32,
}

impl Default for UpdateConfig {
    fn default() -> (r: Self)
        ensures
            r.github_repo@ == "moinmoin-64/aegispanel"@,
            r.github_token@ == ""@,
            r.channel@ == "stable"@,
            r.auto_check,
            r.check_interval_hours == 6,
    {
        UpdateConfig {
            github_repo: "moinmoin-64/aegispanel".to_owned(),
            github_token: "".to_owned(),
            channel: "stable".to_owned(),
            auto_check: true,
            check_interval_hours: 6,
        }
    }
}

impl UpdateConfig {
    /// The period of the background update check: the configured hours, at
    /// least one, in seconds.
    pub fn check_interval_secs(&self) -> (r: u64)
        ensures
            r == 3600 * (if self.check_interval_hours < 1 { 1 } else { self.check_interval_hours as int }),
    {
        let h: u64 = if self.check_interval_hours < 1 { 1 } else { self.check_interval_hours as u64 };
        h * 3600
    }

    /// The access token to send, `None` when none is configured.
    pub fn token(&self) -> (r: Option<String>)
        ensures
            self.github_token@.len() == 0 ==> r is None,
            self.github_token@.len() != 0 ==> r == Some(self.github_token),
    {
        if self.github_token.as_str().unicode_len() == 0 {
            None
        } else {
            Some(self.github_token.clone())
        }
    }

    /// Whether the background update check runs: it is enabled and a
    /// repository is named.
    pub fn background_check_enabled(&self) -> (r: bool)
        ensures
            r == (self.auto_check && self.github_repo@.len() != 0),
    {
        self.auto_check && self.github_repo.as_str().unicode_len() != 0
    }
}

#[derive(Debug, Clone)]
pub struct SecretsConfig {
    pub ha_access_token: String,
    pub wifi_ssid: String,
    pub wifi_psk: String,
}

impl Default for SecretsConfig {
    fn default() -> (r: Self)
        ensures
            r.ha_access_token@ == ""@,
            r.wifi_ssid@ == ""@,
            r.wifi_psk@ == ""@,
    {
        SecretsConfig { ha_access_token: "".to_owned(), wifi_ssid: "".to_owned(), wifi_psk: "".to_owned() }
    }
}

/// The panel configuration, one part per file under [`CONFIG_DIR`].
pub struct ConfigManager {
    pub system: SystemConfig,
    pub power: PowerConfig,
    pub ha: HomeAssistantConfig,
    pub face_id: FaceIdConfig,
    pub update: UpdateConfig,
    pub secrets: SecretsConfig,
}

/// The settings entered in the first-boot wizard.
pub struct WizardSettings {
    pub ha_url: String,
    pub ha_token: String,
    pub wifi_ssid: String,
    pub wifi_psk: String,
    pub language: String,
    pub face_id_enabled: Option<bool>,
    pub face_id_auto_disarm: Option<bool>,
}

impl ConfigManager {
    /// The configuration made of the parts that could be read; every part that
    /// is missing or unreadable takes its defaults.
    pub fn from_loaded(
        system: Option<SystemConfig>,
        power: Option<PowerConfig>,
        ha: Option<HomeAssistantConfig>,
        face_id: Option<FaceIdConfig>,
        update: Option<UpdateConfig>,
        secrets: Option<SecretsConfig>,
    ) -> (r: Self)
        ensures
            system matches Some(s) ==> r.system == s,
            power matches Some(p) ==> r.power == p,
            ha matches Some(h) ==> r.ha == h,
            face_id matches Some(f) ==> r.face_id == f,
            update matches Some(u) ==> r.update == u,
            secrets matches Some(s) ==> r.secrets == s,
            system is None ==> r.system.language@ == "de"@ && r.system.hostname@ == "aegispanel"@
                && !r.system.first_boot_complete && r.system.kiosk_url@ == ""@,
            power is None ==> r.power.night_mode_enabled && r.power.night_mode_start@ == "22:00"@
                && r.power.night_mode_end@ == "06:30"@ && r.power.inactivity_timeout_secs == 60
                && r.power.mmwave_wake_enabled && r.power.mmwave_distance_cm == 100,
            ha is None ==> r.ha.url@ == ""@ && r.ha.alarmo_entity_id@
                == "alarm_control_panel.alarmo"@,
            face_id is None ==> !r.face_id.enabled && r.face_id.camera_device@ == "/dev/video0"@
                && r.face_id.auto_disarm && r.face_id.confidence_threshold_bits
                == DEFAULT_CONFIDENCE_THRESHOLD_BITS,
            update is None ==> r.update.github_repo@ == "moinmoin-64/aegispanel"@
                && r.update.github_token@ == ""@ && r.update.channel@ == "stable"@
                && r.update.auto_check && r.update.check_interval_hours == 6,
            secrets is None ==> r.secrets.ha_access_token@ == ""@ && r.secrets.wifi_ssid@ == ""@
                && r.secrets.wifi_psk@ == ""@,
    {
        ConfigManager {
            system: match system {
                Some(s) => s,
                None => SystemConfig::default(),
            },
            power: match power {
                Some(p) => p,
                None => PowerConfig::default(),
            },
            ha: match ha {
                Some(h) => h,
                None => HomeAssistantConfig::default(),
            },
            face_id: match face_id {
                Some(f) => f,
                None => FaceIdConfig::default(),
            },
            update: match update {
                Some(u) => u,
                None => UpdateConfig::default(),
            },
            secrets: match secrets {
                Some(s) => s,
                None => SecretsConfig::default(),
            },
        }
    }

    pub open spec fn spec_configured(&self) -> bool {
        self.system.first_boot_complete && self.ha.url@.len() != 0
    }

    /// Whether the first-boot wizard has run and Home Assistant is set up.
    pub fn is_configured(&self) -> (r: bool)
        ensures
            r == self.spec_configured(),
    {
        self.system.first_boot_complete && self.ha.url.as_str().unicode_len() != 0
    }

    /// Whether face recognition runs: enabled, on a configured panel.
    pub fn face_id_active(&self) -> (r: bool)
        ensures
            r == (self.face_id.enabled && self.spec_configured()),
    {
        self.face_id.enabled && self.is_configured()
    }

    /// Takes over the wizard's settings and marks the first boot complete;
    /// face ID settings that were not given stay as they are.
    pub fn apply_wizard_config(&mut self, settings: &WizardSettings)
        ensures
            final(self).ha.url == settings.ha_url,
            final(self).ha.alarmo_entity_id == old(self).ha.alarmo_entity_id,
            final(self).system.language == settings.language,
            final(self).system.first_boot_complete,
            final(self).system.hostname == old(self).system.hostname,
            final(self).system.kiosk_url == old(self).system.kiosk_url,
            final(self).secrets.ha_access_token == settings.ha_token,
            final(self).secrets.wifi_ssid == settings.wifi_ssid,
            final(self).secrets.wifi_psk == settings.wifi_psk,
            final(self).face_id.enabled == match settings.face_id_enabled {
                Some(e) => e,
                None => old(self).face_id.enabled,
            },
            final(self).face_id.auto_disarm == match settings.face_id_auto_disarm {
                Some(a) => a,
                None => old(self).face_id.auto_disarm,
            },
            final(self).face_id.camera_device == old(self).face_id.camera_device,
            final(self).face_id.confidence_threshold_bits == old(self).face_id.confidence_threshold_bits,
            final(self).power == old(self).power,
            final(self).update == old(self).update,
            final(self).spec_configured() == (settings.ha_url@.len() != 0),
    {
        self.ha.url = settings.ha_url.clone();
        self.system.language = settings.language.clone();
        self.system.first_boot_complete = true;
        self.secrets.ha_access_token = settings.ha_token.clone();
        self.secrets.wifi_ssid = settings.wifi_ssid.clone();
        self.secrets.wifi_psk = settings.wifi_psk.clone();
        if let Some(enabled) = settings.face_id_enabled {
            self.face_id.enabled = enabled;
        }
        if let Some(auto_disarm) = settings.face_id_auto_disarm {
            self.face_id.auto_disarm = auto_disarm;
        }
    }
}

} // verus!
