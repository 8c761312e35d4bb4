use vstd::prelude::*;
use vstd::string::*;
use crate::config::WizardSettings;
use crate::ha_client::DisarmRequest;
use crate::ota::{GitHubReleaseInfo, InstallPlan, OtaManager, CHECKSUM_SUFFIX, SIGNATURE_SUFFIX};
use crate::state_machine::{state_name, SystemState};
use crate::text::{join2, join3, strip_trailing, trim_end_char};

verus! {

/// Where the local IPC socket is bound.
pub const IPC_SOCKET_PATH: &'static str = "/run/aegispanel/ipc.sock";

/// A request from the local UI, one JSON object per line, tagged by `action`.
pub enum IpcRequest {
    GetStatus,
    Disarm { pin: String },
    SaveWizardConfig {
        ha_url: String,
        ha_token: String,
        wifi_ssid: String,
        wifi_psk: String,
        language: String,
        face_id_enabled: Option<bool>,
        face_id_auto_disarm: Option<bool>,
    },
    TestHaConnection { url: String, token: String },
    CheckUpdate,
    ApplyUpdate { asset_url: String },
    Wake,
}

/// The reply to one IPC request. `details` describes an available release.
pub struct IpcResponse {
    pub success: bool,
    pub state: Option<String>,
    pub alarm_status: Option<String>,
    pub message: Option<String>,
    pub details: Option<GitHubReleaseInfo>,
}

/// How an HTTP request ended.
pub enum HttpOutcome {
    /// A 2xx status.
    Success,
    /// Another status, as displayed.
    Status(String),
    /// No response, with the reason.
    Failed(String),
}

/// How applying a downloaded update ended.
pub enum ApplyOutcome {
    DownloadFailed(String),
    /// The payload failed its signature or checksum check; nothing was
    /// written.
    Rejected(String),
    FlashFailed(String),
    /// Flashed into the slot of the plan, which exists only for a checked
    /// payload.
    Flashed(InstallPlan),
}

impl IpcResponse {
    /// A reply that carries only an outcome and a message.
    pub open spec fn is_plain_reply(&self, success: bool, message: Seq<char>) -> bool {
        &&& self.success == success
        &&& self.state is None
        &&& self.alarm_status is None
        &&& self.details is None
        &&& self.message matches Some(m) && m@ == message
    }

    fn reply(success: bool, message: String) -> (r: Self)
        ensures
            r.is_plain_reply(success, message@),
    {
        IpcResponse { success, state: None, alarm_status: None, message: Some(message), details: None }
    }

    /// The reply to `get_status`: the name of the current state.
    pub fn status(state: SystemState) -> (r: Self)
        ensures
            r.success,
            r.state matches Some(s) && s@ == state_name(state),
            r.alarm_status is None,
            r.message is None,
            r.details is None,
    {
        IpcResponse { success: true, state: Some(state.to_string()), alarm_status: None, message: None, details: None }
    }

    /// The reply to `disarm`, given whether the request reached the Home
    /// Assistant connection.
    pub fn disarm_forwarded(sent: Result<(), String>) -> (r: Self)
        ensures
            sent is Ok ==> r.is_plain_reply(true, "Disarm request queued"@),
            sent matches Err(e) ==> r.is_plain_reply(false, "Channel send error: "@ + e@),
    {
        match sent {
            Ok(()) => Self::reply(true, "Disarm request queued".to_owned()),
            Err(e) => Self::reply(false, join2("Channel send error: ", e.as_str())),
        }
    }

    /// The reply to `save_wizard_config`, given whether saving succeeded.
    pub fn wizard_saved(saved: Result<(), String>) -> (r: Self)
        ensures
            saved is Ok ==> r.is_plain_reply(true, "Wizard & Face ID configuration saved successfully"@),
            saved matches Err(e) ==> r.is_plain_reply(false, "Failed to save configuration: "@ + e@),
    {
        match saved {
            Ok(()) => Self::reply(true, "Wizard & Face ID configuration saved successfully".to_owned()),
            Err(e) => Self::reply(false, join2("Failed to save configuration: ", e.as_str())),
        }
    }

    /// The reply to `test_ha_connection`.
    pub fn connection_tested(outcome: HttpOutcome) -> (r: Self)
        ensures
            outcome is Success ==> r.is_plain_reply(true, "Home Assistant reachable and authenticated"@),
            outcome matches HttpOutcome::Status(s) ==> r.is_plain_reply(false, "HTTP Status Error: "@ + s@),
            outcome matches HttpOutcome::Failed(e) ==> r.is_plain_reply(false, "Connection test failed: "@ + e@),
    {
        match outcome {
            HttpOutcome::Success => Self::reply(true, "Home Assistant reachable and authenticated".to_owned()),
            HttpOutcome::Status(s) => Self::reply(false, join2("HTTP Status Error: ", s.as_str())),
            HttpOutcome::Failed(e) => Self::reply(false, join2("Connection test failed: ", e.as_str())),
        }
    }

    /// The reply to `check_update`: the available release, if any.
    pub fn update_checked(checked: Result<Option<GitHubReleaseInfo>, String>) -> (r: Self)
        ensures
            checked matches Ok(Some(rel)) ==> {
                &&& r.success
                &&& r.state is None
                &&& r.alarm_status is None
                &&& r.message matches Some(m) && m@ == "Update verfügbar: "@ + rel.tag_name@
                &&& r.details == Some(rel)
            },
            checked matches Ok(None) ==> r.is_plain_reply(true, "System ist auf dem neuesten Stand."@),
            checked matches Err(e) ==> r.is_plain_reply(false, "Update-Prüfung fehlgeschlagen: "@ + e@),
    {
        match checked {
            Ok(Some(rel)) => {
                let msg = join2("Update verfügbar: ", rel.tag_name.as_str());
                IpcResponse { success: true, state: None, alarm_status: None, message: Some(msg), details: Some(rel) }
            },
            Ok(None) => Self::reply(true, "System ist auf dem neuesten Stand.".to_owned()),
            Err(e) => Self::reply(false, join2("Update-Prüfung fehlgeschlagen: ", e.as_str())),
        }
    }

    /// The reply to `apply_update`.
    pub fn update_applied(outcome: ApplyOutcome) -> (r: Self)
        ensures
            outcome matches ApplyOutcome::Flashed(plan) ==> r.is_plain_reply(
                true,
                "Update in Slot "@ + plan.spec_slot() + " geflasht. Neustart erforderlich."@,
            ),
            outcome matches ApplyOutcome::FlashFailed(e) ==> r.is_plain_reply(false, "Flashen fehlgeschlagen: "@ + e@),
            outcome matches ApplyOutcome::DownloadFailed(e) ==> r.is_plain_reply(false, "Download fehlgeschlagen: "@ + e@),
            outcome matches ApplyOutcome::Rejected(e) ==> r.is_plain_reply(false, "Update abgelehnt: "@ + e@),
            r.success <==> outcome is Flashed,
            r.success ==> (outcome matches ApplyOutcome::Flashed(plan) && plan.passed_checks()),
    {
        match outcome {
            ApplyOutcome::Flashed(plan) => {
                proof {
                    use_type_invariant(&plan);
                }
                Self::reply(true, join3("Update in Slot ", plan.slot(), " geflasht. Neustart erforderlich."))
            },
            ApplyOutcome::FlashFailed(e) => Self::reply(false, join2("Flashen fehlgeschlagen: ", e.as_str())),
            ApplyOutcome::DownloadFailed(e) => Self::reply(false, join2("Download fehlgeschlagen: ", e.as_str())),
            ApplyOutcome::Rejected(e) => Self::reply(false, join2("Update abgelehnt: ", e.as_str())),
        }
    }

    /// The reply to `wake`.
    pub fn woke() -> (r: Self)
        ensures
            r.is_plain_reply(true, "System wake triggered"@),
    {
        Self::reply(true, "System wake triggered".to_owned())
    }

    /// The reply to a line that is no valid request.
    pub fn invalid_request(reason: String) -> (r: Self)
        ensures
            r.is_plain_reply(false, "Invalid IPC JSON payload: "@ + reason@),
    {
        Self::reply(false, join2("Invalid IPC JSON payload: ", reason.as_str()))
    }
}

/// The work that a request asks of the daemon.
pub enum IpcPlan {
    /// Report the current state.
    ReportStatus,
    /// Hand the request to the Home Assistant connection.
    ForwardDisarm(DisarmRequest),
    /// Take over and save the wizard's settings.
    SaveWizard(WizardSettings),
    /// Ask `url` with the `authorization` header whether Home Assistant answers.
    TestConnection { url: String, authorization: String },
    /// Look for a newer release.
    CheckUpdate,
    /// Download the asset into `download_path` with its signature and
    /// checksum files, check it (`OtaManager::plan_install`) and only then
    /// flash it beside `current_slot`.
    ApplyUpdate {
        asset_url: String,
        signature_url: String,
        checksum_url: String,
        download_path: String,
        current_slot: String,
    },
    /// Answer at once.
    Reply(IpcResponse),
}

/// Where `apply_update` stores the downloaded image.
pub const APPLY_DOWNLOAD_PATH: &'static str = "/tmp/ota_update.img";

/// The slot taken to be running when `apply_update` flashes.
pub const ASSUMED_CURRENT_SLOT: &'static str = "a";

/// The work that each request asks for.
pub fn plan_request(req: IpcRequest) -> (r: IpcPlan)
    ensures
        req is GetStatus ==> r is ReportStatus,
        req matches IpcRequest::Disarm { pin } ==> (r matches IpcPlan::ForwardDisarm(d)
            && d.pin == pin && d.entity_id@.len() == 0),
        req matches IpcRequest::SaveWizardConfig {
            ha_url,
            ha_token,
            wifi_ssid,
            wifi_psk,
            language,
            face_id_enabled,
            face_id_auto_disarm,
        } ==> r == IpcPlan::SaveWizard(
            WizardSettings {
                ha_url,
                ha_token,
                wifi_ssid,
                wifi_psk,
                language,
                face_id_enabled,
                face_id_auto_disarm,
            },
        ),
        req matches IpcRequest::TestHaConnection { url, token } ==> (r matches IpcPlan::TestConnection {
            url: u,
            authorization: a,
        } && u@ == strip_trailing(url@, '/') + "/api/"@ && a@ == "Bearer "@ + token@),
        req is CheckUpdate ==> r is CheckUpdate,
        req matches IpcRequest::ApplyUpdate { asset_url } ==> (r matches IpcPlan::ApplyUpdate {
            asset_url: a,
            signature_url: s,
            checksum_url: k,
            download_path: p,
            current_slot: c,
        } && a == asset_url && s@ == asset_url@ + SIGNATURE_SUFFIX@ && k@ == asset_url@
            + CHECKSUM_SUFFIX@ && p@ == APPLY_DOWNLOAD_PATH@ && c@ == ASSUMED_CURRENT_SLOT@),
        req is Wake ==> (r matches IpcPlan::Reply(resp) && resp.is_plain_reply(
            true,
            "System wake triggered"@,
        )),
{
    match req {
        IpcRequest::GetStatus => IpcPlan::ReportStatus,
        IpcRequest::Disarm { pin } => IpcPlan::ForwardDisarm(disarm_request_for(&pin)),
        IpcRequest::SaveWizardConfig {
            ha_url,
            ha_token,
            wifi_ssid,
            wifi_psk,
            language,
            face_id_enabled,
            face_id_auto_disarm,
        } => IpcPlan::SaveWizard(
            WizardSettings {
                ha_url,
                ha_token,
                wifi_ssid,
                wifi_psk,
                language,
                face_id_enabled,
                face_id_auto_disarm,
            },
        ),
        IpcRequest::TestHaConnection { url, token } => {
            let (u, a) = connection_test_request(url.as_str(), token.as_str());
            IpcPlan::TestConnection { url: u, authorization: a }
        },
        IpcRequest::CheckUpdate => IpcPlan::CheckUpdate,
        IpcRequest::ApplyUpdate { asset_url } => IpcPlan::ApplyUpdate {
            signature_url: OtaManager::companion_url(asset_url.as_str(), SIGNATURE_SUFFIX),
            checksum_url: OtaManager::companion_url(asset_url.as_str(), CHECKSUM_SUFFIX),
            asset_url,
            download_path: APPLY_DOWNLOAD_PATH.to_owned(),
            current_slot: ASSUMED_CURRENT_SLOT.to_owned(),
        },
        IpcRequest::Wake => IpcPlan::Reply(IpcResponse::woke()),
    }
}

/// The disarm request that an IPC `disarm` forwards: the PIN as entered, for
/// the configured Alarmo entity.
pub fn disarm_request_for(pin: &String) -> (r: DisarmRequest)
    ensures
        r.pin == *pin,
        r.entity_id@ == Seq::<char>::empty(),
{
    proof {
        reveal_strlit("");
    }
    DisarmRequest { pin: pin.clone(), entity_id: "".to_owned() }
}

/// The Home Assistant API address that a connection test asks, and the
/// `Authorization` header it sends.
pub fn connection_test_request(url: &str, token: &str) -> (r: (String, String))
    ensures
        r.0@ == strip_trailing(url@, '/') + "/api/"@,
        r.1@ == "Bearer "@ + token@,
{
    let base = trim_end_char(url, '/');
    (join2(base, "/api/"), join2("Bearer ", token))
}

} // verus!
