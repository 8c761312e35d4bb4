use aegispanel_core::ipc_server::{
    connection_test_request, disarm_request_for, plan_request, ApplyOutcome, HttpOutcome, IpcPlan,
    IpcRequest, IpcResponse,
};
use aegispanel_core::ota::{GitHubReleaseInfo, OtaManager};
use ed25519_dalek::{Signer, SigningKey};
use sha2::{Digest, Sha256};
use aegispanel_core::state_machine::SystemState;

fn plain(r: &IpcResponse) -> (bool, String) {
    assert!(r.state.is_none());
    assert!(r.alarm_status.is_none());
    assert!(r.details.is_none());
    (r.success, r.message.clone().expect("message"))
}

#[test]
fn status_reply_names_the_state() {
    let r = IpcResponse::status(SystemState::Kiosk);
    assert!(r.success);
    assert_eq!(r.state.as_deref(), Some("KIOSK"));
    assert!(r.message.is_none());
}

#[test]
fn disarm_replies() {
    assert_eq!(plain(&IpcResponse::disarm_forwarded(Ok(()))), (true, "Disarm request queued".to_string()));
    assert_eq!(
        plain(&IpcResponse::disarm_forwarded(Err("closed".to_string()))),
        (false, "Channel send error: closed".to_string())
    );
    let d = disarm_request_for(&"4711".to_string());
    assert_eq!(d.pin, "4711");
    assert_eq!(d.entity_id, "");
}

#[test]
fn wizard_replies() {
    assert_eq!(
        plain(&IpcResponse::wizard_saved(Ok(()))),
        (true, "Wizard & Face ID configuration saved successfully".to_string())
    );
    assert_eq!(
        plain(&IpcResponse::wizard_saved(Err("disk full".to_string()))),
        (false, "Failed to save configuration: disk full".to_string())
    );
}

#[test]
fn connection_test_replies() {
    assert_eq!(
        plain(&IpcResponse::connection_tested(HttpOutcome::Success)),
        (true, "Home Assistant reachable and authenticated".to_string())
    );
    assert_eq!(
        plain(&IpcResponse::connection_tested(HttpOutcome::Status("401 Unauthorized".to_string()))),
        (false, "HTTP Status Error: 401 Unauthorized".to_string())
    );
    assert_eq!(
        plain(&IpcResponse::connection_tested(HttpOutcome::Failed("timeout".to_string()))),
        (false, "Connection test failed: timeout".to_string())
    );
    let (url, auth) = connection_test_request("https://ha.local:8123//", "abc");
    assert_eq!(url, "https://ha.local:8123/api/");
    assert_eq!(auth, "Bearer abc");
}

#[test]
fn update_check_replies() {
    let rel = GitHubReleaseInfo { tag_name: "v1.2.0".to_string(), name: None, body: None, assets: vec![] };
    let r = IpcResponse::update_checked(Ok(Some(rel)));
    assert!(r.success);
    assert_eq!(r.message.as_deref(), Some("Update verfügbar: v1.2.0"));
    assert_eq!(r.details.map(|d| d.tag_name), Some("v1.2.0".to_string()));
    assert_eq!(plain(&IpcResponse::update_checked(Ok(None))), (true, "System ist auf dem neuesten Stand.".to_string()));
    assert_eq!(
        plain(&IpcResponse::update_checked(Err("offline".to_string()))),
        (false, "Update-Prüfung fehlgeschlagen: offline".to_string())
    );
}

fn checked_plan() -> aegispanel_core::ota::InstallPlan {
    let sk = SigningKey::from_bytes(&[7u8; 32]);
    let payload = b"image";
    let hex: String = Sha256::digest(payload).iter().map(|b| format!("{:02x}", b)).collect();
    OtaManager::new(String::new())
        .plan_install(&sk.verifying_key().to_bytes(), payload, &sk.sign(payload).to_bytes(), &hex, "a")
        .ok()
        .expect("checked payload")
}

#[test]
fn rejected_update_is_refused() {
    assert_eq!(
        plain(&IpcResponse::update_applied(ApplyOutcome::Rejected("bad signature".to_string()))),
        (false, "Update abgelehnt: bad signature".to_string())
    );
}

#[test]
fn apply_update_replies() {
    assert_eq!(
        plain(&IpcResponse::update_applied(ApplyOutcome::Flashed(checked_plan()))),
        (true, "Update in Slot b geflasht. Neustart erforderlich.".to_string())
    );
    assert_eq!(
        plain(&IpcResponse::update_applied(ApplyOutcome::FlashFailed("dd".to_string()))),
        (false, "Flashen fehlgeschlagen: dd".to_string())
    );
    assert_eq!(
        plain(&IpcResponse::update_applied(ApplyOutcome::DownloadFailed("404".to_string()))),
        (false, "Download fehlgeschlagen: 404".to_string())
    );
}

#[test]
fn wake_and_invalid_replies() {
    assert_eq!(plain(&IpcResponse::woke()), (true, "System wake triggered".to_string()));
    assert_eq!(
        plain(&IpcResponse::invalid_request("expected value".to_string())),
        (false, "Invalid IPC JSON payload: expected value".to_string())
    );
}

#[test]
fn requests_are_planned() {
    assert!(matches!(plan_request(IpcRequest::GetStatus), IpcPlan::ReportStatus));
    assert!(matches!(plan_request(IpcRequest::CheckUpdate), IpcPlan::CheckUpdate));
    match plan_request(IpcRequest::Disarm { pin: "1234".to_string() }) {
        IpcPlan::ForwardDisarm(d) => {
            assert_eq!(d.pin, "1234");
            assert_eq!(d.entity_id, "");
        }
        _ => panic!("disarm not forwarded"),
    }
    match plan_request(IpcRequest::TestHaConnection { url: "http://ha/".to_string(), token: "t".to_string() }) {
        IpcPlan::TestConnection { url, authorization } => {
            assert_eq!(url, "http://ha/api/");
            assert_eq!(authorization, "Bearer t");
        }
        _ => panic!("test not planned"),
    }
    match plan_request(IpcRequest::ApplyUpdate { asset_url: "https://x/img".to_string() }) {
        IpcPlan::ApplyUpdate { asset_url, signature_url, checksum_url, download_path, current_slot } => {
            assert_eq!(asset_url, "https://x/img");
            assert_eq!(signature_url, "https://x/img.sig");
            assert_eq!(checksum_url, "https://x/img.sha256");
            assert_eq!(download_path, "/tmp/ota_update.img");
            assert_eq!(current_slot, "a");
        }
        _ => panic!("apply not planned"),
    }
    match plan_request(IpcRequest::Wake) {
        IpcPlan::Reply(r) => assert_eq!(r.message.as_deref(), Some("System wake triggered")),
        _ => panic!("wake not answered"),
    }
    match plan_request(IpcRequest::SaveWizardConfig {
        ha_url: "u".to_string(),
        ha_token: "t".to_string(),
        wifi_ssid: "s".to_string(),
        wifi_psk: "p".to_string(),
        language: "en".to_string(),
        face_id_enabled: Some(true),
        face_id_auto_disarm: None,
    }) {
        IpcPlan::SaveWizard(w) => {
            assert_eq!(w.ha_url, "u");
            assert_eq!(w.language, "en");
            assert_eq!(w.face_id_enabled, Some(true));
        }
        _ => panic!("wizard not planned"),
    }
}
