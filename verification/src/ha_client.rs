use vstd::prelude::*;
use vstd::string::*;
use crate::state_machine::AlarmStatus;
use crate::text::{has_prefix, is_prefix, join2, replace_all, replace_text, text_eq};

verus! {

/// What the Home Assistant connection reports to the core.
#[derive(Debug, Clone)]
pub enum HaEvent {
    Connected,
    Disconnected,
    AlarmStateUpdated(AlarmStatus),
    DisarmResult { success: bool, message: Option<String> },
}

/// The abstract value of an [`HaEvent`].
pub enum HaEventView {
    Connected,
    Disconnected,
    AlarmStateUpdated(AlarmStatus),
    DisarmResult { success: bool, message: Option<Seq<char>> },
}

pub open spec fn opt_view(o: Option<String>) -> Option<Seq<char>> {
    match o {
        Some(s) => Some(s@),
        None => None,
    }
}

impl View for HaEvent {
    type V = HaEventView;

    open spec fn view(&self) -> HaEventView {
        match self {
            HaEvent::Connected => HaEventView::Connected,
            HaEvent::Disconnected => HaEventView::Disconnected,
            HaEvent::AlarmStateUpdated(s) => HaEventView::AlarmStateUpdated(*s),
            HaEvent::DisarmResult { success, message } => HaEventView::DisarmResult {
                success: *success,
                message: opt_view(*message),
            },
        }
    }
}

pub open spec fn events_view(v: Seq<HaEvent>) -> Seq<HaEventView> {
    v.map_values(|e: HaEvent| e@)
}

/// A request to disarm the Alarmo panel. An empty `entity_id` means the
/// configured Alarmo entity; an empty `pin` sends no code.
pub struct DisarmRequest {
    pub pin: String,
    pub entity_id: String,
}

/// The Alarmo status named by a Home Assistant state string: the known
/// states by name, every other `armed_*` state as [`AlarmStatus::ArmedCustom`].
pub open spec fn status_named(state: Seq<char>) -> AlarmStatus {
    if state == "disarmed"@ {
        AlarmStatus::Disarmed
    } else if state == "armed_home"@ {
        AlarmStatus::ArmedHome
    } else if state == "armed_away"@ {
        AlarmStatus::ArmedAway
    } else if state == "armed_night"@ {
        AlarmStatus::ArmedNight
    } else if state == "armed_vacation"@ {
        AlarmStatus::ArmedVacation
    } else if state == "arming"@ {
        AlarmStatus::Arming
    } else if state == "disarming"@ {
        AlarmStatus::Disarming
    } else if state == "pending"@ {
        AlarmStatus::Pending
    } else if state == "triggered"@ {
        AlarmStatus::Triggered
    } else if is_prefix("armed_"@, state) {
        AlarmStatus::ArmedCustom
    } else {
        AlarmStatus::Unknown
    }
}

/// Maps a Home Assistant `alarm_control_panel` state to an [`AlarmStatus`].
pub fn parse_ha_state(state: &str) -> (r: AlarmStatus)
    ensures
        r == status_named(state@),
{
    if text_eq(state, "disarmed") {
        AlarmStatus::Disarmed
    } else if text_eq(state, "armed_home") {
        AlarmStatus::ArmedHome
    } else if text_eq(state, "armed_away") {
        AlarmStatus::ArmedAway
    } else if text_eq(state, "armed_night") {
        AlarmStatus::ArmedNight
    } else if text_eq(state, "armed_vacation") {
        AlarmStatus::ArmedVacation
    } else if text_eq(state, "arming") {
        AlarmStatus::Arming
    } else if text_eq(state, "disarming") {
        AlarmStatus::Disarming
    } else if text_eq(state, "pending") {
        AlarmStatus::Pending
    } else if text_eq(state, "triggered") {
        AlarmStatus::Triggered
    } else if has_prefix(state, "armed_") {
        AlarmStatus::ArmedCustom
    } else {
        AlarmStatus::Unknown
    }
}

/// Exactly the Alarmo states `armed_*` (every one of them), `arming`,
/// `pending` and `triggered` count as armed; only `disarmed` counts as
/// disarmed.
pub proof fn armed_alarmo_states(state: Seq<char>)
    ensures
        status_named(state).spec_armed() <==> (is_prefix("armed_"@, state) || state == "arming"@
            || state == "pending"@ || state == "triggered"@),
        status_named(state) == AlarmStatus::Disarmed <==> state == "disarmed"@,
{
    reveal_strlit("disarmed");
    reveal_strlit("armed_home");
    reveal_strlit("armed_away");
    reveal_strlit("armed_night");
    reveal_strlit("armed_vacation");
    reveal_strlit("arming");
    reveal_strlit("disarming");
    reveal_strlit("pending");
    reveal_strlit("triggered");
    reveal_strlit("armed_");
    assert("disarmed"@.len() == 8 && "armed_home"@.len() == 10 && "armed_away"@.len() == 10);
    assert("armed_night"@.len() == 11 && "armed_vacation"@.len() == 14 && "arming"@.len() == 6);
    assert("disarming"@.len() == 9 && "pending"@.len() == 7 && "triggered"@.len() == 9);
    assert("armed_home"@.take(6) =~= "armed_"@);
    assert("armed_away"@.take(6) =~= "armed_"@);
    assert("armed_night"@.take(6) =~= "armed_"@);
    assert("armed_vacation"@.take(6) =~= "armed_"@);
    if is_prefix("armed_"@, state) {
        assert("armed_"@[0] == 'a' && "armed_"@[5] == '_');
        assert(state.take(6)[0] == state[0] && state.take(6)[5] == state[5]);
        assert(state[0] == 'a' && state[5] == '_');
        assert(state != "disarmed"@) by {
            if state == "disarmed"@ {
                assert(state[0] == 'd');
            }
        }
        assert(state != "disarming"@) by {
            if state == "disarming"@ {
                assert(state[0] == 'd');
            }
        }
        assert(state != "arming"@) by {
            if state == "arming"@ {
                assert(state[5] == 'g');
            }
        }
        assert(state != "pending"@) by {
            if state == "pending"@ {
                assert(state[0] == 'p');
            }
        }
        assert(state != "triggered"@) by {
            if state == "triggered"@ {
                assert(state[0] == 't');
            }
        }
    }
    if state == "armed_home"@ || state == "armed_away"@ || state == "armed_night"@ || state
        == "armed_vacation"@ {
        assert(state.take(6) =~= "armed_"@);
        assert(is_prefix("armed_"@, state));
    }
    if is_prefix("armed_"@, state) {
        assert(status_named(state).spec_armed());
    }
    if status_named(state).spec_armed() {
        assert(is_prefix("armed_"@, state) || state == "arming"@ || state == "pending"@ || state
            == "triggered"@);
    }
    if state == "arming"@ {
        assert(status_named(state) == AlarmStatus::Arming);
    }
    if state == "pending"@ {
        assert(status_named(state) == AlarmStatus::Pending);
    }
    if state == "triggered"@ {
        assert("disarming"@[0] != "triggered"@[0]);
        assert(status_named(state) == AlarmStatus::Triggered);
    }
    if state == "disarmed"@ {
        assert(status_named(state) == AlarmStatus::Disarmed);
    }
    if state == "arming"@ || state == "pending"@ || state == "triggered"@ {
        assert(!is_prefix("armed_"@, state)) by {
            if is_prefix("armed_"@, state) {
                assert("armed_"@[5] == '_' && "armed_"@[0] == 'a');
                assert(state.take(6)[5] == state[5] && state.take(6)[0] == state[0]);
            }
        }
    }
}

/// One entry of a `get_states` result, as far as the panel reads it.
pub struct HaEntityState {
    /// `entity_id`, when it is a string.
    pub entity_id: Option<String>,
    /// `state`, when it is a string.
    pub state: Option<String>,
}

/// The fields of an incoming Home Assistant WebSocket JSON message that the
/// panel reads; each is `None` when absent or not of the expected JSON type.
pub struct HaMessage {
    /// `type`
    pub msg_type: Option<String>,
    /// `id`
    pub id: Option<u64>,
    /// `success`
    pub success: Option<bool>,
    /// `event.data.entity_id`
    pub event_entity_id: Option<String>,
    /// `event.data.new_state.state`
    pub event_new_state: Option<String>,
    /// `error.message`
    pub error_message: Option<String>,
    /// `result`, when it is an array
    pub result: Option<Vec<HaEntityState>>,
}

/// One read from the WebSocket.
pub enum HaFrame {
    /// A text frame holding a JSON value.
    Message(HaMessage),
    /// Anything else that keeps the connection: a text frame that is no JSON,
    /// a binary, ping or pong frame.
    Ignored,
    /// The server closed the stream, or reading failed.
    Closed,
}

/// A string-valued JSON field read as a string, empty when absent.
pub open spec fn text_or_empty(o: Option<String>) -> Seq<char> {
    match o {
        Some(s) => s@,
        None => Seq::empty(),
    }
}

fn str_or_empty(o: &Option<String>) -> (r: &str)
    ensures
        r@ == text_or_empty(*o),
{
    proof {
        reveal_strlit("");
    }
    match o {
        Some(s) => s.as_str(),
        None => "",
    }
}

impl HaFrame {
    /// Whether the frame is a JSON message whose `type` is `t`.
    pub open spec fn spec_has_type(&self, t: Seq<char>) -> bool {
        self matches HaFrame::Message(m) && m.msg_type matches Some(s) && s@ == t
    }

    pub fn has_type(&self, t: &str) -> (r: bool)
        ensures
            r == self.spec_has_type(t@),
    {
        match self {
            HaFrame::Message(m) => match &m.msg_type {
                Some(s) => text_eq(s.as_str(), t),
                None => false,
            },
            _ => false,
        }
    }
}

/// A message the panel sends to Home Assistant.
pub enum HaOutbound {
    Auth { access_token: String },
    SubscribeStateChanged { id: u64 },
    GetStates { id: u64 },
    Ping { id: u64 },
    /// `alarm_control_panel.alarm_disarm` on `entity_id`, with `code` as
    /// service data when there is one.
    Disarm { id: u64, entity_id: String, code: Option<String> },
}

/// The abstract value of an [`HaOutbound`].
pub enum HaOutboundView {
    Auth { access_token: Seq<char> },
    SubscribeStateChanged { id: u64 },
    GetStates { id: u64 },
    Ping { id: u64 },
    Disarm { id: u64, entity_id: Seq<char>, code: Option<Seq<char>> },
}

impl View for HaOutbound {
    type V = HaOutboundView;

    open spec fn view(&self) -> HaOutboundView {
        match self {
            HaOutbound::Auth { access_token } => HaOutboundView::Auth { access_token: access_token@ },
            HaOutbound::SubscribeStateChanged { id } => HaOutboundView::SubscribeStateChanged { id: *id },
            HaOutbound::GetStates { id } => HaOutboundView::GetStates { id: *id },
            HaOutbound::Ping { id } => HaOutboundView::Ping { id: *id },
            HaOutbound::Disarm { id, entity_id, code } => HaOutboundView::Disarm {
                id: *id,
                entity_id: entity_id@,
                code: opt_view(*code),
            },
        }
    }
}

pub open spec fn outbound_view(v: Seq<HaOutbound>) -> Seq<HaOutboundView> {
    v.map_values(|o: HaOutbound| o@)
}

/// What the daemon does after an input of the connection: send these
/// messages, report these events, and, when `reconnect_after` is set, drop the
/// connection and connect again after that many seconds.
pub struct HaReaction {
    pub send: Vec<HaOutbound>,
    pub report: Vec<HaEvent>,
    pub reconnect_after: Option<u64>,
}

/// The abstract value of an [`HaReaction`].
pub struct HaReactionView {
    pub send: Seq<HaOutboundView>,
    pub report: Seq<HaEventView>,
    pub reconnect_after: Option<u64>,
}

impl View for HaReaction {
    type V = HaReactionView;

    open spec fn view(&self) -> HaReactionView {
        HaReactionView {
            send: outbound_view(self.send@),
            report: events_view(self.report@),
            reconnect_after: self.reconnect_after,
        }
    }
}

/// Where a connection stands.
#[derive(Debug, Clone, Copy, PartialEq, Eq, Structural)]
pub enum HaPhase {
    /// No connection.
    Connecting,
    /// Connected; waiting for `auth_required`.
    AwaitingAuthRequest,
    /// The access token was sent; waiting for `auth_ok`.
    AwaitingAuthResult,
    /// Authenticated and subscribed.
    Live,
}

/// The reconnect delay is doubled after every dropped connection, up to this.
pub const MAX_BACKOFF_SECS: u64 = 30;

/// The first reconnect delay, and the delay after an accepted connection.
pub const INITIAL_BACKOFF_SECS: u64 = 1;

/// The next reconnect delay: twice the last, at most [`MAX_BACKOFF_SECS`].
pub open spec fn backoff_after(secs: u64) -> u64 {
    if 2 * secs < MAX_BACKOFF_SECS {
        (2 * secs) as u64
    } else {
        MAX_BACKOFF_SECS
    }
}

/// The delay before the next reconnect attempt.
pub fn next_backoff(secs: u64) -> (r: u64)
    ensures
        r == backoff_after(secs),
{
    if secs >= 15 {
        MAX_BACKOFF_SECS
    } else {
        secs * 2
    }
}

/// The address of Home Assistant's WebSocket API under `base_url`, with the
/// HTTP schemes replaced by the WebSocket ones.
pub open spec fn websocket_url_of(base_url: Seq<char>) -> Seq<char> {
    replace_all(
        replace_all(base_url + "/api/websocket"@, "https://"@, "wss://"@),
        "http://"@,
        "ws://"@,
    )
}

/// The abstract state of an [`HaLink`].
pub struct HaLinkView {
    pub url: Seq<char>,
    pub token: Seq<char>,
    pub entity: Seq<char>,
    pub next_id: u64,
    pub state_req_id: u64,
    pub pending_ping: Option<u64>,
    pub phase: HaPhase,
    pub backoff: u64,
}

pub open spec fn after_id(id: u64) -> u64 {
    if id == u64::MAX { 0 } else { (id + 1) as u64 }
}

pub open spec fn nothing() -> HaReactionView {
    HaReactionView { send: Seq::empty(), report: Seq::empty(), reconnect_after: None }
}

pub open spec fn reporting(events: Seq<HaEventView>) -> HaReactionView {
    HaReactionView { send: Seq::empty(), report: events, reconnect_after: None }
}

pub open spec fn sending(msgs: Seq<HaOutboundView>) -> HaReactionView {
    HaReactionView { send: msgs, report: Seq::empty(), reconnect_after: None }
}

/// Dropping the connection: report the loss, wait the current delay and
/// reconnect; the delay doubles unless the drop was a failed handshake.
pub open spec fn dropped(l: HaLinkView, double: bool) -> (HaLinkView, HaReactionView) {
    (
        HaLinkView {
            phase: HaPhase::Connecting,
            backoff: if double { backoff_after(l.backoff) } else { l.backoff },
            ..l
        },
        HaReactionView {
            send: Seq::empty(),
            report: seq![HaEventView::Disconnected],
            reconnect_after: Some(l.backoff),
        },
    )
}

/// The outcome of a connection attempt.
pub open spec fn connect_next(l: HaLinkView, connected: bool) -> (HaLinkView, HaReactionView) {
    if connected {
        (
            HaLinkView { phase: HaPhase::AwaitingAuthRequest, backoff: INITIAL_BACKOFF_SECS, ..l },
            reporting(seq![HaEventView::Connected]),
        )
    } else {
        dropped(l, true)
    }
}

/// An authenticated connection subscribes to state changes and asks for the
/// current states, each with a fresh id.
pub open spec fn session_started(l: HaLinkView) -> (HaLinkView, HaReactionView) {
    (
        HaLinkView {
            next_id: after_id(after_id(l.next_id)),
            state_req_id: after_id(l.next_id),
            pending_ping: None,
            phase: HaPhase::Live,
            ..l
        },
        sending(
            seq![
                HaOutboundView::SubscribeStateChanged { id: l.next_id },
                HaOutboundView::GetStates { id: after_id(l.next_id) },
            ],
        ),
    )
}

/// A frame read from the connection.
pub open spec fn frame_next(l: HaLinkView, f: HaFrame) -> (HaLinkView, HaReactionView) {
    match l.phase {
        HaPhase::Connecting => (l, nothing()),
        HaPhase::AwaitingAuthRequest => if f.spec_has_type("auth_required"@) {
            (
                HaLinkView { phase: HaPhase::AwaitingAuthResult, ..l },
                sending(seq![HaOutboundView::Auth { access_token: l.token }]),
            )
        } else {
            dropped(l, false)
        },
        HaPhase::AwaitingAuthResult => if f.spec_has_type("auth_ok"@) {
            session_started(l)
        } else {
            dropped(l, false)
        },
        HaPhase::Live => match f {
            HaFrame::Closed => dropped(l, true),
            HaFrame::Ignored => (l, nothing()),
            HaFrame::Message(m) => (
                if text_or_empty(m.msg_type) == "pong"@ {
                    HaLinkView { pending_ping: None, ..l }
                } else {
                    l
                },
                reporting(message_events(m, l.entity, l.state_req_id)),
            ),
        },
    }
}

/// The heartbeat of a live connection: an unanswered ping drops it, otherwise
/// a new ping is sent and awaited.
pub open spec fn ping_tick_next(l: HaLinkView) -> (HaLinkView, HaReactionView) {
    if l.phase != HaPhase::Live {
        (l, nothing())
    } else if l.pending_ping is Some {
        dropped(l, true)
    } else {
        (
            HaLinkView { next_id: after_id(l.next_id), pending_ping: Some(l.next_id), ..l },
            sending(seq![HaOutboundView::Ping { id: l.next_id }]),
        )
    }
}

/// A message that could not be sent: a lost ping drops a live connection, a
/// lost disarm call is reported as failed, anything else is let go.
pub open spec fn send_failed_next(l: HaLinkView, o: HaOutboundView) -> (HaLinkView, HaReactionView) {
    match o {
        HaOutboundView::Ping { .. } => if l.phase == HaPhase::Live {
            dropped(l, true)
        } else {
            (l, nothing())
        },
        HaOutboundView::Disarm { .. } => (
            l,
            reporting(
                seq![HaEventView::DisarmResult { success: false, message: Some("Netzwerkfehler beim Senden"@) }],
            ),
        ),
        _ => (l, nothing()),
    }
}

/// A disarm request: on a live connection the service call goes out with a
/// fresh id; before that nothing is sent.
pub open spec fn disarm_next(l: HaLinkView, entity_id: Seq<char>, pin: Seq<char>) -> (HaLinkView, HaReactionView) {
    if l.phase == HaPhase::Live {
        (
            HaLinkView { next_id: after_id(l.next_id), ..l },
            sending(seq![disarm_call(l, entity_id, pin)]),
        )
    } else {
        (l, nothing())
    }
}

/// The service call for a disarm request: the configured Alarmo entity unless
/// the request names one, the PIN as code unless it is empty.
pub open spec fn disarm_call(l: HaLinkView, entity_id: Seq<char>, pin: Seq<char>) -> HaOutboundView {
    HaOutboundView::Disarm {
        id: l.next_id,
        entity_id: if entity_id.len() == 0 { l.entity } else { entity_id },
        code: if pin.len() == 0 { None } else { Some(pin) },
    }
}

/// The events that a `get_states` result reports: one status update per
/// entry of the Alarmo entity, in order.
pub open spec fn initial_state_events(states: Seq<HaEntityState>, entity: Seq<char>) -> Seq<HaEventView>
    decreases states.len(),
{
    if states.len() == 0 {
        Seq::empty()
    } else {
        let prev = initial_state_events(states.drop_last(), entity);
        if text_or_empty(states.last().entity_id) == entity {
            prev.push(HaEventView::AlarmStateUpdated(status_named(text_or_empty(states.last().state))))
        } else {
            prev
        }
    }
}

/// The events that a JSON message reports on a connection that asked for
/// the states with `state_req_id`, watching `entity`.
pub open spec fn message_events(m: HaMessage, entity: Seq<char>, state_req_id: u64) -> Seq<HaEventView> {
    let t = text_or_empty(m.msg_type);
    if t == "event"@ {
        if text_or_empty(m.event_entity_id) == entity {
            seq![HaEventView::AlarmStateUpdated(status_named(text_or_empty(m.event_new_state)))]
        } else {
            Seq::empty()
        }
    } else if t == "result"@ {
        let rid: u64 = match m.id { Some(i) => i, None => 0 };
        if rid == state_req_id && m.success == Some(true) {
            match m.result {
                Some(arr) => initial_state_events(arr@, entity),
                None => Seq::empty(),
            }
        } else if m.success == Some(false) {
            seq![HaEventView::DisarmResult {
                success: false,
                message: Some(match m.error_message { Some(e) => e@, None => "PIN Falsch"@ }),
            }]
        } else if m.success == Some(true) {
            seq![HaEventView::DisarmResult { success: true, message: None }]
        } else {
            Seq::empty()
        }
    } else {
        Seq::empty()
    }
}

/// The Home Assistant WebSocket protocol of one panel: connection and
/// reconnection, authentication, the Alarmo subscription, the ping heartbeat
/// and disarm calls.
pub struct HaLink {
    url: String,
    token: String,
    alarmo_entity_id: String,
    next_id: u64,
    state_req_id: u64,
    pending_ping: Option<u64>,
    phase: HaPhase,
    backoff: u64,
}

impl View for HaLink {
    type V = HaLinkView;

    closed spec fn view(&self) -> HaLinkView {
        HaLinkView {
            url: self.url@,
            token: self.token@,
            entity: self.alarmo_entity_id@,
            next_id: self.next_id,
            state_req_id: self.state_req_id,
            pending_ping: self.pending_ping,
            phase: self.phase,
            backoff: self.backoff,
        }
    }
}

impl HaLink {
    /// A link that is not connected yet; message ids start at 1 and the first
    /// reconnect delay is one second.
    pub fn new(url: String, token: String, alarmo_entity_id: String) -> (r: Self)
        ensures
            r@.url == url@,
            r@.token == token@,
            r@.entity == alarmo_entity_id@,
            r@.next_id == 1,
            r@.pending_ping is None,
            r@.phase == HaPhase::Connecting,
            r@.backoff == INITIAL_BACKOFF_SECS,
    {
        HaLink {
            url,
            token,
            alarmo_entity_id,
            next_id: 1,
            state_req_id: 0,
            pending_ping: None,
            phase: HaPhase::Connecting,
            backoff: INITIAL_BACKOFF_SECS,
        }
    }

    pub fn phase(&self) -> (r: HaPhase)
        ensures
            r == self@.phase,
    {
        self.phase
    }

    fn take_id(&mut self) -> (r: u64)
        ensures
            r == old(self)@.next_id,
            final(self)@ == (HaLinkView { next_id: after_id(old(self)@.next_id), ..old(self)@ }),
    {
        let id = self.next_id;
        self.next_id = self.next_id.wrapping_add(1);
        id
    }

    fn drop_connection(&mut self, double: bool) -> (r: HaReaction)
        ensures
            (final(self)@, r@) == dropped(old(self)@, double),
    {
        let wait = self.backoff;
        self.phase = HaPhase::Connecting;
        if double {
            self.backoff = next_backoff(self.backoff);
        }
        let mut report: Vec<HaEvent> = Vec::new();
        report.push(HaEvent::Disconnected);
        let r = HaReaction { send: Vec::new(), report, reconnect_after: Some(wait) };
        assert(r@.send =~= Seq::<HaOutboundView>::empty());
        assert(r@.report =~= seq![HaEventView::Disconnected]);
        r
    }

    fn react(send: Vec<HaOutbound>, report: Vec<HaEvent>) -> (r: HaReaction)
        ensures
            r@ == (HaReactionView {
                send: outbound_view(send@),
                report: events_view(report@),
                reconnect_after: None,
            }),
    {
        HaReaction { send, report, reconnect_after: None }
    }

    fn quiet() -> (r: HaReaction)
        ensures
            r@ == nothing(),
    {
        let r = HaReaction { send: Vec::new(), report: Vec::new(), reconnect_after: None };
        assert(r@.send =~= Seq::<HaOutboundView>::empty());
        assert(r@.report =~= Seq::<HaEventView>::empty());
        r
    }

    /// The WebSocket address to connect to.
    pub fn websocket_url(&self) -> (r: String)
        ensures
            r@ == websocket_url_of(self@.url),
    {
        proof {
            reveal_strlit("https://");
            reveal_strlit("http://");
        }
        let full = join2(self.url.as_str(), "/api/websocket");
        let secure = replace_text(full.as_str(), "https://", "wss://");
        replace_text(secure.as_str(), "http://", "ws://")
    }

    /// The outcome of a connection attempt: a new connection resets the delay
    /// and awaits the handshake; a failed one is retried after the delay.
    pub fn on_connect_result(&mut self, connected: bool) -> (r: HaReaction)
        ensures
            (final(self)@, r@) == connect_next(old(self)@, connected),
    {
        if connected {
            self.phase = HaPhase::AwaitingAuthRequest;
            self.backoff = INITIAL_BACKOFF_SECS;
            let mut report: Vec<HaEvent> = Vec::new();
            report.push(HaEvent::Connected);
            let r = Self::react(Vec::new(), report);
            assert(r@.send =~= Seq::<HaOutboundView>::empty());
            assert(r@.report =~= seq![HaEventView::Connected]);
            r
        } else {
            self.drop_connection(true)
        }
    }

    fn start_session(&mut self) -> (r: HaReaction)
        ensures
            (final(self)@, r@) == session_started(old(self)@),
    {
        let sub_id = self.take_id();
        let state_id = self.take_id();
        self.state_req_id = state_id;
        self.pending_ping = None;
        self.phase = HaPhase::Live;
        let mut send: Vec<HaOutbound> = Vec::new();
        send.push(HaOutbound::SubscribeStateChanged { id: sub_id });
        send.push(HaOutbound::GetStates { id: state_id });
        let r = Self::react(send, Vec::new());
        assert(r@.send =~= seq![
            HaOutboundView::SubscribeStateChanged { id: sub_id },
            HaOutboundView::GetStates { id: state_id },
        ]);
        assert(r@.report =~= Seq::<HaEventView>::empty());
        r
    }

    /// Handles one frame read from the connection.
    pub fn on_frame(&mut self, frame: &HaFrame) -> (r: HaReaction)
        ensures
            (final(self)@, r@) == frame_next(old(self)@, *frame),
    {
        match self.phase {
            HaPhase::Connecting => Self::quiet(),
            HaPhase::AwaitingAuthRequest => {
                if frame.has_type("auth_required") {
                    self.phase = HaPhase::AwaitingAuthResult;
                    let mut send: Vec<HaOutbound> = Vec::new();
                    send.push(HaOutbound::Auth { access_token: self.token.clone() });
                    let r = Self::react(send, Vec::new());
                    assert(r@.send =~= seq![HaOutboundView::Auth { access_token: self@.token }]);
                    assert(r@.report =~= Seq::<HaEventView>::empty());
                    r
                } else {
                    self.drop_connection(false)
                }
            },
            HaPhase::AwaitingAuthResult => {
                if frame.has_type("auth_ok") {
                    self.start_session()
                } else {
                    self.drop_connection(false)
                }
            },
            HaPhase::Live => match frame {
                HaFrame::Closed => self.drop_connection(true),
                HaFrame::Ignored => Self::quiet(),
                HaFrame::Message(m) => {
                    let t = str_or_empty(&m.msg_type);
                    if text_eq(t, "pong") {
                        self.pending_ping = None;
                        proof {
                            reveal_strlit("pong");
                            reveal_strlit("event");
                            reveal_strlit("result");
                            assert("pong"@.len() == 4);
                            assert("event"@.len() == 5);
                            assert("result"@.len() == 6);
                            assert(text_or_empty(m.msg_type) == "pong"@);
                        }
                        assert(message_events(*m, self@.entity, self@.state_req_id) =~= Seq::<HaEventView>::empty());
                        Self::quiet()
                    } else {
                        let report = self.message_reaction(m);
                        let r = Self::react(Vec::new(), report);
                        assert(r@.send =~= Seq::<HaOutboundView>::empty());
                        r
                    }
                },
            },
        }
    }

    /// The heartbeat timer of a live connection fired.
    pub fn on_ping_tick(&mut self) -> (r: HaReaction)
        ensures
            (final(self)@, r@) == ping_tick_next(old(self)@),
    {
        if self.phase != HaPhase::Live {
            return Self::quiet();
        }
        if self.pending_ping.is_some() {
            return self.drop_connection(true);
        }
        let pid = self.take_id();
        self.pending_ping = Some(pid);
        let mut send: Vec<HaOutbound> = Vec::new();
        send.push(HaOutbound::Ping { id: pid });
        let r = Self::react(send, Vec::new());
        assert(r@.send =~= seq![HaOutboundView::Ping { id: pid }]);
        assert(r@.report =~= Seq::<HaEventView>::empty());
        r
    }

    /// A message of `r.send` could not be sent.
    pub fn on_send_failed(&mut self, msg: &HaOutbound) -> (r: HaReaction)
        ensures
            (final(self)@, r@) == send_failed_next(old(self)@, msg@),
    {
        match msg {
            HaOutbound::Ping { .. } => {
                if self.phase == HaPhase::Live {
                    self.drop_connection(true)
                } else {
                    Self::quiet()
                }
            },
            HaOutbound::Disarm { .. } => {
                let mut report: Vec<HaEvent> = Vec::new();
                report.push(
                    HaEvent::DisarmResult { success: false, message: Some("Netzwerkfehler beim Senden".to_owned()) },
                );
                let r = Self::react(Vec::new(), report);
                assert(r@.send =~= Seq::<HaOutboundView>::empty());
                assert(r@.report =~= seq![
                    HaEventView::DisarmResult { success: false, message: Some("Netzwerkfehler beim Senden"@) },
                ]);
                r
            },
            _ => Self::quiet(),
        }
    }

    /// Sends the service call for a disarm request on a live connection; no
    /// call goes out before the handshake is complete.
    pub fn on_disarm(&mut self, req: &DisarmRequest) -> (r: HaReaction)
        ensures
            (final(self)@, r@) == disarm_next(old(self)@, req.entity_id@, req.pin@),
    {
        if self.phase != HaPhase::Live {
            return Self::quiet();
        }
        let call_id = self.take_id();
        let entity_id = if req.entity_id.as_str().unicode_len() == 0 {
            self.alarmo_entity_id.clone()
        } else {
            req.entity_id.clone()
        };
        let code = if req.pin.as_str().unicode_len() == 0 {
            None
        } else {
            Some(req.pin.clone())
        };
        let call = HaOutbound::Disarm { id: call_id, entity_id, code };
        let ghost cv = call@;
        let mut send: Vec<HaOutbound> = Vec::new();
        send.push(call);
        let r = Self::react(send, Vec::new());
        assert(r@.send =~= seq![cv]);
        assert(r@.report =~= Seq::<HaEventView>::empty());
        r
    }

    fn initial_states(&self, states: &Vec<HaEntityState>) -> (r: Vec<HaEvent>)
        ensures
            events_view(r@) == initial_state_events(states@, self@.entity),
    {
        let mut out: Vec<HaEvent> = Vec::new();
        let n = states.len();
        let mut i: usize = 0;
        while i < n
            invariant
                n == states@.len(),
                i <= n,
                events_view(out@) == initial_state_events(states@.take(i as int), self@.entity),
            decreases n - i,
        {
            let item = &states[i];
            proof {
                assert(states@.take(i + 1).drop_last() =~= states@.take(i as int));
                assert(states@.take(i + 1).last() == states@[i as int]);
            }
            if text_eq(str_or_empty(&item.entity_id), self.alarmo_entity_id.as_str()) {
                let st = parse_ha_state(str_or_empty(&item.state));
                out.push(HaEvent::AlarmStateUpdated(st));
                assert(events_view(out@) =~= initial_state_events(states@.take(i + 1), self@.entity));
            } else {
                assert(events_view(out@) =~= initial_state_events(states@.take(i + 1), self@.entity));
            }
            i = i + 1;
        }
        assert(states@.take(n as int) =~= states@);
        out
    }

    fn message_reaction(&self, m: &HaMessage) -> (r: Vec<HaEvent>)
        ensures
            events_view(r@) == message_events(*m, self@.entity, self@.state_req_id),
    {
        let t = str_or_empty(&m.msg_type);
        let mut out: Vec<HaEvent> = Vec::new();
        if text_eq(t, "event") {
            if text_eq(str_or_empty(&m.event_entity_id), self.alarmo_entity_id.as_str()) {
                let st = parse_ha_state(str_or_empty(&m.event_new_state));
                out.push(HaEvent::AlarmStateUpdated(st));
            }
        } else if text_eq(t, "result") {
            let rid: u64 = match m.id {
                Some(i) => i,
                None => 0,
            };
            let ok = match m.success {
                Some(b) => b,
                None => false,
            };
            if rid == self.state_req_id && ok {
                match &m.result {
                    Some(arr) => {
                        out = self.initial_states(arr);
                    },
                    None => {},
                }
            } else if m.success == Some(false) {
                let msg = match &m.error_message {
                    Some(e) => e.clone(),
                    None => "PIN Falsch".to_owned(),
                };
                out.push(HaEvent::DisarmResult { success: false, message: Some(msg) });
            } else if m.success == Some(true) {
                out.push(HaEvent::DisarmResult { success: true, message: None });
            }
        }
        assert(events_view(out@) =~= message_events(*m, self@.entity, self@.state_req_id));
        out
    }
}

/// After a dropped connection the reconnect delay never exceeds
/// [`MAX_BACKOFF_SECS`], and it grows until it gets there.
pub proof fn backoff_bounded(secs: u64)
    ensures
        backoff_after(secs) <= MAX_BACKOFF_SECS,
        secs < MAX_BACKOFF_SECS ==> backoff_after(secs) > secs || secs == 0,
{
}

/// A ping that is still unanswered at the next tick drops the connection;
/// a pong in between keeps it.
pub proof fn heartbeat_needs_pong(l: HaLinkView, pong: HaMessage)
    requires
        l.phase == HaPhase::Live,
        l.pending_ping is None,
        pong.msg_type matches Some(t) && t@ == "pong"@,
    ensures
        ping_tick_next(ping_tick_next(l).0).1.reconnect_after == Some(l.backoff),
        ping_tick_next(frame_next(ping_tick_next(l).0, HaFrame::Message(pong)).0).1.reconnect_after is None,
{
}

/// Every authenticated connection starts with no ping outstanding, whatever
/// the previous connection left behind: its first heartbeat sends a ping
/// with the next fresh id and keeps the connection.
pub proof fn new_session_starts_without_pending_ping(l: HaLinkView, f: HaFrame)
    requires
        l.phase == HaPhase::AwaitingAuthResult,
        f.spec_has_type("auth_ok"@),
    ensures
        frame_next(l, f).0.phase == HaPhase::Live,
        frame_next(l, f).0.pending_ping is None,
        ping_tick_next(frame_next(l, f).0).1 == (HaReactionView {
            send: seq![HaOutboundView::Ping { id: frame_next(l, f).0.next_id }],
            report: Seq::empty(),
            reconnect_after: None,
        }),
        ping_tick_next(frame_next(l, f).0).0.pending_ping == Some(frame_next(l, f).0.next_id),
{
}

/// Only a completed handshake makes a connection live, and a failed handshake
/// retries without lengthening the delay.
pub proof fn handshake_gates_live(l: HaLinkView, f: HaFrame)
    requires
        l.phase == HaPhase::AwaitingAuthRequest || l.phase == HaPhase::AwaitingAuthResult,
    ensures
        frame_next(l, f).0.phase == HaPhase::Live ==> l.phase == HaPhase::AwaitingAuthResult
            && f.spec_has_type("auth_ok"@),
        frame_next(l, f).0.phase == HaPhase::Connecting ==> frame_next(l, f).0.backoff == l.backoff
            && frame_next(l, f).1.report == seq![HaEventView::Disconnected],
{
}

/// An input of the connection, as the daemon hands it to an [`HaLink`].
pub enum HaInput {
    ConnectResult(bool),
    Frame(HaFrame),
    PingTick,
    SendFailed(HaOutbound),
    Disarm(DisarmRequest),
}

/// The effect of one input.
pub open spec fn input_next(l: HaLinkView, i: HaInput) -> (HaLinkView, HaReactionView) {
    match i {
        HaInput::ConnectResult(ok) => connect_next(l, ok),
        HaInput::Frame(f) => frame_next(l, f),
        HaInput::PingTick => ping_tick_next(l),
        HaInput::SendFailed(o) => send_failed_next(l, o@),
        HaInput::Disarm(d) => disarm_next(l, d.entity_id@, d.pin@),
    }
}

/// A run of inputs: the final link, every message sent and every event
/// reported, in order.
pub open spec fn run(l: HaLinkView, inputs: Seq<HaInput>) -> (HaLinkView, Seq<HaOutboundView>, Seq<HaEventView>)
    decreases inputs.len(),
{
    if inputs.len() == 0 {
        (l, Seq::empty(), Seq::empty())
    } else {
        let (l1, r) = input_next(l, inputs[0]);
        let (l2, sent, reported) = run(l1, inputs.drop_first());
        (l2, r.send + sent, r.report + reported)
    }
}

/// The id a message carries; the authentication message has none.
pub open spec fn id_of(o: HaOutboundView) -> Option<u64> {
    match o {
        HaOutboundView::Auth { .. } => None,
        HaOutboundView::SubscribeStateChanged { id } => Some(id),
        HaOutboundView::GetStates { id } => Some(id),
        HaOutboundView::Ping { id } => Some(id),
        HaOutboundView::Disarm { id, .. } => Some(id),
    }
}

/// The ids of the messages, in order.
pub open spec fn ids(msgs: Seq<HaOutboundView>) -> Seq<u64>
    decreases msgs.len(),
{
    if msgs.len() == 0 {
        Seq::empty()
    } else {
        (match id_of(msgs[0]) {
            Some(i) => seq![i],
            None => Seq::empty(),
        }) + ids(msgs.drop_first())
    }
}

/// `n` consecutive ids from `start`.
pub open spec fn consecutive(start: int, n: nat) -> Seq<u64> {
    Seq::new(n, |j: int| (start + j) as u64)
}

proof fn ids_append(a: Seq<HaOutboundView>, b: Seq<HaOutboundView>)
    ensures
        ids(a + b) == ids(a) + ids(b),
    decreases a.len(),
{
    if a.len() == 0 {
        assert(a + b =~= b);
    } else {
        ids_append(a.drop_first(), b);
        assert((a + b).drop_first() =~= a.drop_first() + b);
        assert((a + b)[0] == a[0]);
    }
}

proof fn step_ids(l: HaLinkView, i: HaInput)
    requires
        l.next_id + 2 <= u64::MAX,
    ensures
        ({
            let (l1, r) = input_next(l, i);
            &&& ids(r.send).len() <= 2
            &&& ids(r.send) == consecutive(l.next_id as int, ids(r.send).len())
            &&& l1.next_id == l.next_id + ids(r.send).len()
        }),
{
    let (l1, r) = input_next(l, i);
    reveal_with_fuel(ids, 3);
    assert(ids(r.send) =~= consecutive(l.next_id as int, ids(r.send).len()));
}

/// The ids of the messages a link sends over any run are consecutive,
/// starting at its next id, so they are distinct and increasing; a new link
/// starts at 1. (This holds until the 64-bit counter would wrap.)
pub proof fn message_ids_consecutive(l: HaLinkView, inputs: Seq<HaInput>)
    requires
        l.next_id + 2 * inputs.len() <= u64::MAX,
    ensures
        ids(run(l, inputs).1) == consecutive(l.next_id as int, ids(run(l, inputs).1).len()),
        run(l, inputs).0.next_id == l.next_id + ids(run(l, inputs).1).len(),
        forall|a: int, b: int|
            0 <= a < b < ids(run(l, inputs).1).len() ==> ids(run(l, inputs).1)[a] < ids(
                run(l, inputs).1,
            )[b],
    decreases inputs.len(),
{
    if inputs.len() > 0 {
        let (l1, r) = input_next(l, inputs[0]);
        step_ids(l, inputs[0]);
        message_ids_consecutive(l1, inputs.drop_first());
        let rest = run(l1, inputs.drop_first()).1;
        ids_append(r.send, rest);
        assert(ids(r.send + rest) =~= consecutive(
            l.next_id as int,
            ids(r.send).len() + ids(rest).len(),
        ));
    }
}

/// Before authentication succeeds no message with an id goes out: only the
/// access token is sent, and only in answer to `auth_required`.
pub proof fn nothing_sent_before_auth(l: HaLinkView, i: HaInput)
    requires
        l.phase != HaPhase::Live,
        !(l.phase == HaPhase::AwaitingAuthResult && (i matches HaInput::Frame(f) && f.spec_has_type(
            "auth_ok"@,
        ))),
    ensures
        ids(input_next(l, i).1.send).len() == 0,
        input_next(l, i).1.send.len() > 0 ==> (l.phase == HaPhase::AwaitingAuthRequest
            && (i matches HaInput::Frame(f) && f.spec_has_type("auth_required"@))
            && input_next(l, i).1.send == seq![HaOutboundView::Auth { access_token: l.token }]),
{
    reveal_with_fuel(ids, 2);
}

/// The reconnect delay after `k` failed attempts in a row: 1, 2, 4, 8, 16,
/// then 30 seconds.
pub open spec fn retry_delay(k: nat) -> u64 {
    if k == 0 {
        1
    } else if k == 1 {
        2
    } else if k == 2 {
        4
    } else if k == 3 {
        8
    } else if k == 4 {
        16
    } else {
        30
    }
}

/// The link after `k` failed connection attempts.
pub open spec fn after_failures(l: HaLinkView, k: nat) -> HaLinkView
    decreases k,
{
    if k == 0 {
        l
    } else {
        connect_next(after_failures(l, (k - 1) as nat), false).0
    }
}

/// While every connection attempt fails, the `k`-th failure reports one
/// `Disconnected` (never `Connected`) and waits 1, 2, 4, 8, 16, then 30
/// seconds; a successful connection resets the delay to one second.
pub proof fn retry_delays(l: HaLinkView, k: nat)
    requires
        l.backoff == INITIAL_BACKOFF_SECS,
    ensures
        after_failures(l, k).backoff == retry_delay(k),
        connect_next(after_failures(l, k), false).1 == (HaReactionView {
            send: Seq::empty(),
            report: seq![HaEventView::Disconnected],
            reconnect_after: Some(retry_delay(k)),
        }),
        connect_next(after_failures(l, k), true).0.backoff == INITIAL_BACKOFF_SECS,
    decreases k,
{
    if k > 0 {
        retry_delays(l, (k - 1) as nat);
    }
}

} // verus!
