use vstd::prelude::*;
use vstd::string::*;
use crate::state_machine::SystemState;
use crate::text::{join2, strip_trailing, trim_end_char};

verus! {

/// Where a captured frame is stored before it is uploaded.
pub const SNAPSHOT_PATH: &'static str = "/tmp/face_snapshot.jpg";

/// The first candidate of a recognition answer, as far as the panel decides
/// on it: its name and whether its confidence reaches the configured
/// threshold.
pub struct FaceMatch {
    pub name: String,
    pub meets_threshold: bool,
}

/// Whether the face ID loop makes another attempt: face ID is enabled, the
/// security screen is shown and the radar still sees someone.
pub fn should_attempt_recognition(enabled: bool, state: SystemState, presence_active: bool) -> (r: bool)
    ensures
        r == (enabled && state == SystemState::Security && presence_active),
{
    enabled && state == SystemState::Security && presence_active
}

/// The recognition service address under the Home Assistant URL, and the
/// `Authorization` header for the token.
pub fn recognize_request(ha_url: &str, ha_token: &str) -> (r: (String, String))
    ensures
        r.0@ == strip_trailing(ha_url@, '/') + "/api/app/double_take/api/recognize"@,
        r.1@ == "Bearer "@ + ha_token@,
{
    let base = trim_end_char(ha_url, '/');
    (join2(base, "/api/app/double_take/api/recognize"), join2("Bearer ", ha_token))
}

/// The user that a recognition answer identifies: the reported match, else the
/// first candidate if it is confident enough, else nobody.
pub fn recognized_user(match_user: Option<String>, first_match: Option<FaceMatch>) -> (r: Option<String>)
    ensures
        match_user is Some ==> r == match_user,
        match_user is None ==> match first_match {
            Some(m) => if m.meets_threshold {
                r == Some(m.name)
            } else {
                r is None
            },
            None => r is None,
        },
{
    match match_user {
        Some(u) => Some(u),
        None => match first_match {
            Some(m) => if m.meets_threshold {
                Some(m.name)
            } else {
                None
            },
            None => None,
        },
    }
}

} // verus!
