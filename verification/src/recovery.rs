use vstd::prelude::*;
use vstd::string::*;
use crate::text::{has_prefix, is_prefix};

verus! {

/// The address the recovery web server listens on.
pub const RECOVERY_LISTEN_ADDR: &'static str = "0.0.0.0:8080";

/// The persistent configuration that a factory reset wipes.
pub const RECOVERY_CONFIG_DIR: &'static str = "/etc/aegispanel";

/// What a request to the recovery server asks for.
#[derive(Debug, Clone, Copy, PartialEq, Eq, Structural)]
pub enum RecoveryAction {
    FactoryReset,
    Rollback,
    Reboot,
    Info,
}

/// The action that an HTTP request line selects.
pub open spec fn action_for(line: Seq<char>) -> RecoveryAction {
    if is_prefix("POST /api/factory_reset"@, line) {
        RecoveryAction::FactoryReset
    } else if is_prefix("POST /api/rollback"@, line) {
        RecoveryAction::Rollback
    } else if is_prefix("POST /api/reboot"@, line) {
        RecoveryAction::Reboot
    } else {
        RecoveryAction::Info
    }
}

/// The JSON body answered for an action.
pub open spec fn body_for(a: RecoveryAction) -> Seq<char> {
    match a {
        RecoveryAction::FactoryReset => "{\"status\":\"ok\",\"message\":\"Factory reset complete. Rebooting...\"}"@,
        RecoveryAction::Rollback => "{\"status\":\"ok\",\"message\":\"Rollback boot slot configured. Rebooting...\"}"@,
        RecoveryAction::Reboot => "{\"status\":\"ok\",\"message\":\"Rebooting system...\"}"@,
        RecoveryAction::Info => "{\"status\":\"ok\",\"subsystem\":\"AegisPanel OS Emergency Recovery v1.0.0\",\"available_actions\":[\"/api/factory_reset\",\"/api/rollback\",\"/api/reboot\"]}"@,
    }
}

/// The decimal digit for `d` (0..10).
pub open spec fn digit_char(d: int) -> char {
    ((48 + d) as char)
}

/// The decimal rendering of `n`, without leading zeros.
pub open spec fn decimal(n: nat) -> Seq<char>
    decreases n,
{
    if n < 10 {
        seq![digit_char(n as int)]
    } else {
        decimal(n / 10) + seq![digit_char((n % 10) as int)]
    }
}

/// The complete HTTP response carrying `body`.
pub open spec fn http_response_for(body: Seq<char>, body_bytes: nat) -> Seq<char> {
    "HTTP/1.1 200 OK\r\nContent-Type: application/json\r\nContent-Length: "@ + decimal(body_bytes)
        + "\r\nConnection: close\r\n\r\n"@ + body
}

impl RecoveryAction {
    /// Selects the action for the first line of an HTTP request.
    pub fn from_request_line(line: &str) -> (r: Self)
        ensures
            r == action_for(line@),
    {
        if has_prefix(line, "POST /api/factory_reset") {
            RecoveryAction::FactoryReset
        } else if has_prefix(line, "POST /api/rollback") {
            RecoveryAction::Rollback
        } else if has_prefix(line, "POST /api/reboot") {
            RecoveryAction::Reboot
        } else {
            RecoveryAction::Info
        }
    }

    /// Whether the action ends with a reboot.
    pub fn triggers_reboot(&self) -> (r: bool)
        ensures
            r == (*self != RecoveryAction::Info),
    {
        *self != RecoveryAction::Info
    }

    /// The JSON body answered for the action.
    pub fn response_body(&self) -> (r: &'static str)
        ensures
            r@ == body_for(*self),
    {
        match self {
            RecoveryAction::FactoryReset => "{\"status\":\"ok\",\"message\":\"Factory reset complete. Rebooting...\"}",
            RecoveryAction::Rollback => "{\"status\":\"ok\",\"message\":\"Rollback boot slot configured. Rebooting...\"}",
            RecoveryAction::Reboot => "{\"status\":\"ok\",\"message\":\"Rebooting system...\"}",
            RecoveryAction::Info => "{\"status\":\"ok\",\"subsystem\":\"AegisPanel OS Emergency Recovery v1.0.0\",\"available_actions\":[\"/api/factory_reset\",\"/api/rollback\",\"/api/reboot\"]}",
        }
    }
}

fn digit_str(d: u64) -> (r: &'static str)
    requires
        d < 10,
    ensures
        r@ == seq![digit_char(d as int)],
{
    proof {
        reveal_strlit("0");
        reveal_strlit("1");
        reveal_strlit("2");
        reveal_strlit("3");
        reveal_strlit("4");
        reveal_strlit("5");
        reveal_strlit("6");
        reveal_strlit("7");
        reveal_strlit("8");
        reveal_strlit("9");
    }
    let r = match d {
        0 => "0",
        1 => "1",
        2 => "2",
        3 => "3",
        4 => "4",
        5 => "5",
        6 => "6",
        7 => "7",
        8 => "8",
        _ => "9",
    };
    assert(r@ =~= seq![digit_char(d as int)]);
    r
}

/// Appends the decimal rendering of `n`.
pub fn append_decimal(out: &mut String, n: u64)
    ensures
        final(out)@ == old(out)@ + decimal(n as nat),
    decreases n,
{
    if n >= 10 {
        append_decimal(out, n / 10);
    }
    out.append(digit_str(n % 10));
    assert(final(out)@ =~= old(out)@ + decimal(n as nat));
}

/// The HTTP/1.1 response that carries `body`, with its length in bytes.
pub fn http_response(body: &str) -> (r: String)
    ensures
        r@ == http_response_for(body@, body.len() as nat),
{
    let mut r = String::from_str("HTTP/1.1 200 OK\r\nContent-Type: application/json\r\nContent-Length: ");
    append_decimal(&mut r, body.len() as u64);
    r.append("\r\nConnection: close\r\n\r\n");
    r.append(body);
    r
}

} // verus!
