use vstd::prelude::*;

verus! {

/// The screens and operating modes of the panel.
#[derive(Debug, Clone, Copy, PartialEq, Eq, Structural)]
pub enum SystemState {
    Boot,
    Initializing,
    Wizard,
    Connecting,
    CheckingAlarm,
    /// Alarmo reports armed, arming, pending or triggered.
    Security,
    /// Alarmo reports disarmed.
    Kiosk,
    /// Display off (night mode or inactivity).
    Sleep,
    /// Presence detected, returning to the active screen.
    Waking,
    /// Fail-safe mode while Home Assistant is unreachable.
    Offline,
    /// OTA update in progress.
    Update,
    /// System recovery mode.
    Recovery,
    /// Critical system error.
    Error,
}

/// The upper-case name under which a state is shown and reported.
pub open spec fn state_name(s: SystemState) -> Seq<char> {
    match s {
        SystemState::Boot => "BOOT"@,
        SystemState::Initializing => "INITIALIZING"@,
        SystemState::Wizard => "WIZARD"@,
        SystemState::Connecting => "CONNECTING"@,
        SystemState::CheckingAlarm => "CHECKING_ALARM"@,
        SystemState::Security => "SECURITY"@,
        SystemState::Kiosk => "KIOSK"@,
        SystemState::Sleep => "SLEEP"@,
        SystemState::Waking => "WAKING"@,
        SystemState::Offline => "OFFLINE"@,
        SystemState::Update => "UPDATE"@,
        SystemState::Recovery => "RECOVERY"@,
        SystemState::Error => "ERROR"@,
    }
}

impl SystemState {
    /// The display name of the state, e.g. `CHECKING_ALARM`.
    pub fn to_string(&self) -> (r: String)
        ensures
            r@ == state_name(*self),
    {
        let s: &str = match self {
            SystemState::Boot => "BOOT",
            SystemState::Initializing => "INITIALIZING",
            SystemState::Wizard => "WIZARD",
            SystemState::Connecting => "CONNECTING",
            SystemState::CheckingAlarm => "CHECKING_ALARM",
            SystemState::Security => "SECURITY",
            SystemState::Kiosk => "KIOSK",
            SystemState::Sleep => "SLEEP",
            SystemState::Waking => "WAKING",
            SystemState::Offline => "OFFLINE",
            SystemState::Update => "UPDATE",
            SystemState::Recovery => "RECOVERY",
            SystemState::Error => "ERROR",
        };
        s.to_owned()
    }
}

/// Inputs that drive the state machine.
#[derive(Debug, Clone)]
pub enum StateEvent {
    InitComplete { configured: bool },
    WizardFinished,
    HaConnected,
    HaDisconnected,
    AlarmStateChanged(AlarmStatus),
    PresenceDetected,
    FaceRecognized { user: String },
    InactivityTimeout,
    NightModeStart,
    NightModeEnd,
    OtaStart,
    OtaComplete,
    OtaFailed,
    RecoveryTriggered,
    FatalError(String),
}

/// Alarm panel status as reported by the Alarmo integration.
#[derive(Debug, Clone, Copy, PartialEq, Eq, Structural)]
pub enum AlarmStatus {
    Disarmed,
    ArmedHome,
    ArmedAway,
    ArmedNight,
    ArmedVacation,
    /// Any other `armed_*` mode, such as `armed_custom_bypass`.
    ArmedCustom,
    Arming,
    Disarming,
    Pending,
    Triggered,
    Unknown,
}

impl AlarmStatus {
    /// The statuses under which the panel must show the security screen.
    pub open spec fn spec_armed(self) -> bool {
        match self {
            AlarmStatus::ArmedHome | AlarmStatus::ArmedAway | AlarmStatus::ArmedNight
            | AlarmStatus::ArmedVacation | AlarmStatus::ArmedCustom | AlarmStatus::Arming | AlarmStatus::Pending
            | AlarmStatus::Triggered => true,
            _ => false,
        }
    }

    pub fn is_armed(&self) -> (r: bool)
        ensures
            r == self.spec_armed(),
    {
        match self {
            AlarmStatus::ArmedHome | AlarmStatus::ArmedAway | AlarmStatus::ArmedNight
            | AlarmStatus::ArmedVacation | AlarmStatus::ArmedCustom | AlarmStatus::Arming | AlarmStatus::Pending
            | AlarmStatus::Triggered => true,
            _ => false,
        }
    }
}

/// The screen that an alarm status calls for: security when armed, kiosk when
/// disarmed, the fail-safe screen for anything in between.
pub open spec fn screen_for(status: AlarmStatus) -> SystemState {
    if status.spec_armed() {
        SystemState::Security
    } else if status == AlarmStatus::Disarmed {
        SystemState::Kiosk
    } else {
        SystemState::Offline
    }
}

/// The abstract state of a [`StateMachine`].
pub struct MachineView {
    pub current: SystemState,
    pub last_active: SystemState,
    pub alarm: AlarmStatus,
}

impl MachineView {
    /// The active screens never contradict the alarm: the kiosk is shown only
    /// while disarmed, the security screen only while armed.
    pub open spec fn screen_consistent(self) -> bool {
        &&& self.current == SystemState::Kiosk ==> self.alarm == AlarmStatus::Disarmed
        &&& self.current == SystemState::Security ==> self.alarm.spec_armed()
    }

    pub open spec fn with_current(self, s: SystemState) -> MachineView {
        MachineView { current: s, ..self }
    }
}

/// One transition of the panel state machine.
///
/// The recovery jumper takes every state, waking included, to recovery.
/// While waking, every other event except a face match returns to the screen
/// that the last known alarm status calls for. Otherwise each event acts on
/// the states listed for it and leaves every other state unchanged;
/// `OtaStart` and `FatalError` act on every state.
pub open spec fn step(m: MachineView, e: StateEvent) -> MachineView {
    let s = m.current;
    if e is RecoveryTriggered {
        m.with_current(SystemState::Recovery)
    } else if s == SystemState::Waking && !(e is FaceRecognized) {
        m.with_current(screen_for(m.alarm))
    } else {
        match e {
            StateEvent::InitComplete { configured } => if s == SystemState::Boot {
                m.with_current(if configured { SystemState::Connecting } else { SystemState::Wizard })
            } else {
                m
            },
            StateEvent::WizardFinished => if s == SystemState::Wizard {
                m.with_current(SystemState::Connecting)
            } else {
                m
            },
            StateEvent::HaConnected => if s == SystemState::Connecting || s == SystemState::Offline {
                m.with_current(SystemState::CheckingAlarm)
            } else {
                m
            },
            StateEvent::HaDisconnected => if s == SystemState::Connecting || s
                == SystemState::Kiosk || s == SystemState::Security || s
                == SystemState::CheckingAlarm {
                m.with_current(SystemState::Offline)
            } else {
                m
            },
            StateEvent::AlarmStateChanged(st) => if s == SystemState::CheckingAlarm || s
                == SystemState::Kiosk || s == SystemState::Security {
                MachineView { current: screen_for(st), alarm: st, ..m }
            } else if s == SystemState::Sleep {
                MachineView {
                    current: if st.spec_armed() { SystemState::Security } else { SystemState::Sleep },
                    alarm: st,
                    ..m
                }
            } else {
                m
            },
            StateEvent::PresenceDetected => if s == SystemState::Sleep {
                m.with_current(SystemState::Waking)
            } else {
                m
            },
            StateEvent::FaceRecognized { .. } => if s == SystemState::Security || s
                == SystemState::Sleep || s == SystemState::Waking {
                MachineView { current: SystemState::Kiosk, alarm: AlarmStatus::Disarmed, ..m }
            } else {
                m
            },
            StateEvent::InactivityTimeout => if s == SystemState::Kiosk || s == SystemState::Security {
                MachineView { current: SystemState::Sleep, last_active: s, ..m }
            } else {
                m
            },
            StateEvent::NightModeStart => if s == SystemState::Kiosk || s == SystemState::Security {
                MachineView { current: SystemState::Sleep, last_active: s, ..m }
            } else {
                m
            },
            StateEvent::NightModeEnd => if s == SystemState::Sleep {
                m.with_current(SystemState::Waking)
            } else {
                m
            },
            StateEvent::OtaStart => m.with_current(SystemState::Update),
            StateEvent::OtaComplete => if s == SystemState::Update {
                m.with_current(SystemState::Connecting)
            } else {
                m
            },
            StateEvent::OtaFailed => if s == SystemState::Update {
                m.with_current(SystemState::Error)
            } else {
                m
            },
            StateEvent::RecoveryTriggered => m.with_current(SystemState::Recovery),
            StateEvent::FatalError(_) => m.with_current(SystemState::Error),
        }
    }
}

/// An armed report from Alarmo takes every active or sleeping screen straight
/// to the security screen: night mode and inactivity sleep never hide an armed
/// alarm.
pub proof fn armed_report_shows_security(m: MachineView, st: AlarmStatus)
    requires
        st.spec_armed(),
        m.current == SystemState::Sleep || m.current == SystemState::Kiosk || m.current
            == SystemState::Security || m.current == SystemState::CheckingAlarm,
    ensures
        step(m, StateEvent::AlarmStateChanged(st)).current == SystemState::Security,
        step(m, StateEvent::AlarmStateChanged(st)).alarm == st,
{
}

/// A disarmed report from Alarmo unlocks the panel from the alarm screens; a
/// sleeping panel stays asleep.
pub proof fn disarmed_report_shows_kiosk(m: MachineView)
    requires
        m.current == SystemState::Kiosk || m.current == SystemState::Security || m.current
            == SystemState::CheckingAlarm,
    ensures
        step(m, StateEvent::AlarmStateChanged(AlarmStatus::Disarmed)).current == SystemState::Kiosk,
        step(
            MachineView { current: SystemState::Sleep, ..m },
            StateEvent::AlarmStateChanged(AlarmStatus::Disarmed),
        ).current == SystemState::Sleep,
{
}

/// A recognised face on the security, sleeping or waking screen disarms and
/// unlocks the panel.
pub proof fn face_match_unlocks(m: MachineView, user: String)
    requires
        m.current == SystemState::Security || m.current == SystemState::Sleep || m.current
            == SystemState::Waking,
    ensures
        step(m, StateEvent::FaceRecognized { user }).current == SystemState::Kiosk,
        step(m, StateEvent::FaceRecognized { user }).alarm == AlarmStatus::Disarmed,
{
}

/// Every transition keeps the active screen consistent with the alarm status.
pub proof fn step_keeps_screen_consistent(m: MachineView, e: StateEvent)
    requires
        m.screen_consistent(),
    ensures
        step(m, e).screen_consistent(),
{
}

/// The alarm status changes only on an Alarmo report or a face match.
pub proof fn alarm_changes_only_by_report_or_face(m: MachineView, e: StateEvent)
    ensures
        step(m, e).alarm != m.alarm ==> (e is AlarmStateChanged || e is FaceRecognized),
{
}

/// Leaving the waking state goes to the screen that the last known alarm
/// status calls for, whatever the event (a face match and the recovery
/// jumper aside).
pub proof fn waking_returns_to_alarm_screen(m: MachineView, e: StateEvent)
    requires
        m.current == SystemState::Waking,
        !(e is FaceRecognized),
        !(e is RecoveryTriggered),
    ensures
        step(m, e).current == screen_for(m.alarm),
        step(m, e).alarm == m.alarm,
{
}

/// Losing Home Assistant takes the connecting, checking, kiosk and security
/// screens to the offline fail-safe screen, keeping the alarm status and the
/// remembered screen; every other state but waking ignores it.
pub proof fn disconnect_goes_offline(m: MachineView)
    ensures
        (m.current == SystemState::Connecting || m.current == SystemState::CheckingAlarm
            || m.current == SystemState::Kiosk || m.current == SystemState::Security) ==> step(
            m,
            StateEvent::HaDisconnected,
        ) == (MachineView { current: SystemState::Offline, last_active: m.last_active, alarm: m.alarm }),
        !(m.current == SystemState::Connecting || m.current == SystemState::CheckingAlarm
            || m.current == SystemState::Kiosk || m.current == SystemState::Security || m.current
            == SystemState::Waking) ==> step(m, StateEvent::HaDisconnected) == m,
{
}

/// Start-up and reconnection: boot goes to the wizard or, when configured, to
/// connecting; the finished wizard connects; a connection (first or
/// regained) checks the alarm first. The alarm status is kept throughout.
pub proof fn connection_flow(m: MachineView, configured: bool)
    ensures
        m.current == SystemState::Boot ==> step(m, StateEvent::InitComplete { configured }) == (
        MachineView {
            current: if configured { SystemState::Connecting } else { SystemState::Wizard },
            last_active: m.last_active,
            alarm: m.alarm,
        }),
        m.current == SystemState::Wizard ==> step(m, StateEvent::WizardFinished) == (MachineView {
            current: SystemState::Connecting,
            last_active: m.last_active,
            alarm: m.alarm,
        }),
        (m.current == SystemState::Connecting || m.current == SystemState::Offline) ==> step(
            m,
            StateEvent::HaConnected,
        ) == (MachineView { current: SystemState::CheckingAlarm, last_active: m.last_active, alarm: m.alarm }),
        (m.current != SystemState::Connecting && m.current != SystemState::Offline && m.current
            != SystemState::Waking) ==> step(m, StateEvent::HaConnected) == m,
{
}

/// An update in progress ends in connecting when it completes and in the
/// error state when it fails; outside an update both events are ignored
/// (waking aside).
pub proof fn ota_outcomes(m: MachineView)
    ensures
        m.current == SystemState::Update ==> step(m, StateEvent::OtaComplete).current
            == SystemState::Connecting && step(m, StateEvent::OtaFailed).current == SystemState::Error,
        (m.current != SystemState::Update && m.current != SystemState::Waking) ==> step(
            m,
            StateEvent::OtaComplete,
        ) == m && step(m, StateEvent::OtaFailed) == m,
{
}

/// The recovery jumper takes every state to recovery and keeps the alarm
/// status.
pub proof fn recovery_takes_over(m: MachineView)
    ensures
        step(m, StateEvent::RecoveryTriggered) == m.with_current(SystemState::Recovery),
{
}

/// OTA start and fatal errors take over from every state except waking,
/// where the panel first returns to its alarm screen.
pub proof fn global_events_take_over(m: MachineView, msg: String)
    requires
        m.current != SystemState::Waking,
    ensures
        step(m, StateEvent::OtaStart).current == SystemState::Update,
        step(m, StateEvent::FatalError(msg)).current == SystemState::Error,
{
}

/// Night mode and inactivity put an active screen to sleep and remember it.
pub proof fn sleep_remembers_active_screen(m: MachineView)
    requires
        m.current == SystemState::Kiosk || m.current == SystemState::Security,
    ensures
        step(m, StateEvent::NightModeStart).current == SystemState::Sleep,
        step(m, StateEvent::NightModeStart).last_active == m.current,
        step(m, StateEvent::InactivityTimeout).current == SystemState::Sleep,
        step(m, StateEvent::InactivityTimeout).last_active == m.current,
{
}

/// Presence or the end of the night wakes a sleeping panel.
pub proof fn presence_wakes_sleep(m: MachineView)
    requires
        m.current == SystemState::Sleep,
    ensures
        step(m, StateEvent::PresenceDetected).current == SystemState::Waking,
        step(m, StateEvent::NightModeEnd).current == SystemState::Waking,
{
}

/// No two states share a display name.
pub proof fn state_names_distinct(a: SystemState, b: SystemState)
    requires
        a != b,
    ensures
        state_name(a) != state_name(b),
{
    reveal_strlit("BOOT");
    reveal_strlit("INITIALIZING");
    reveal_strlit("WIZARD");
    reveal_strlit("CONNECTING");
    reveal_strlit("CHECKING_ALARM");
    reveal_strlit("SECURITY");
    reveal_strlit("KIOSK");
    reveal_strlit("SLEEP");
    reveal_strlit("WAKING");
    reveal_strlit("OFFLINE");
    reveal_strlit("UPDATE");
    reveal_strlit("RECOVERY");
    reveal_strlit("ERROR");
    if state_name(a) == state_name(b) {
        assert(state_name(a).len() == state_name(b).len());
        assert(state_name(a)[0] == state_name(b)[0]);
        assert(state_name(a)[1] == state_name(b)[1]);
    }
}

/// A machine that has just started: booting, alarm status unknown.
pub open spec fn initial_machine() -> MachineView {
    MachineView {
        current: SystemState::Boot,
        last_active: SystemState::Security,
        alarm: AlarmStatus::Unknown,
    }
}

/// The deterministic panel state machine.
#[derive(Clone, Copy)]
pub struct StateMachine {
    current_state: SystemState,
    last_active_state: SystemState,
    alarm_status: AlarmStatus,
}

impl View for StateMachine {
    type V = MachineView;

    closed spec fn view(&self) -> MachineView {
        MachineView {
            current: self.current_state,
            last_active: self.last_active_state,
            alarm: self.alarm_status,
        }
    }
}

impl StateMachine {
    pub fn new() -> (r: Self)
        ensures
            r@ == initial_machine(),
            r@.screen_consistent(),
    {
        StateMachine {
            current_state: SystemState::Boot,
            last_active_state: SystemState::Security,
            alarm_status: AlarmStatus::Unknown,
        }
    }

    pub fn current_state(&self) -> (r: SystemState)
        ensures
            r == self@.current,
    {
        self.current_state
    }

    pub fn alarm_status(&self) -> (r: &AlarmStatus)
        ensures
            *r == self@.alarm,
    {
        &self.alarm_status
    }

    fn screen_for_status(status: AlarmStatus) -> (r: SystemState)
        ensures
            r == screen_for(status),
    {
        if status.is_armed() {
            SystemState::Security
        } else if status == AlarmStatus::Disarmed {
            SystemState::Kiosk
        } else {
            SystemState::Offline
        }
    }

    /// Applies one event and returns the state the machine is in afterwards.
    pub fn transition(&mut self, event: StateEvent) -> (r: SystemState)
        ensures
            final(self)@ == step(old(self)@, event),
            r == final(self)@.current,
            old(self)@.screen_consistent() ==> final(self)@.screen_consistent(),
    {
        let old_state = self.current_state;
        let new_state = match (self.current_state, event) {
            (_, StateEvent::RecoveryTriggered) => SystemState::Recovery,
            (SystemState::Boot, StateEvent::InitComplete { configured }) => {
                if configured {
                    SystemState::Connecting
                } else {
                    SystemState::Wizard
                }
            },
            (SystemState::Wizard, StateEvent::WizardFinished) => SystemState::Connecting,
            (SystemState::Connecting, StateEvent::HaConnected) => SystemState::CheckingAlarm,
            (SystemState::Connecting, StateEvent::HaDisconnected) => SystemState::Offline,
            (SystemState::Offline, StateEvent::HaConnected) => SystemState::CheckingAlarm,
            (
                SystemState::CheckingAlarm | SystemState::Kiosk | SystemState::Security,
                StateEvent::AlarmStateChanged(status),
            ) => {
                self.alarm_status = status;
                Self::screen_for_status(status)
            },
            (
                SystemState::Security | SystemState::Sleep | SystemState::Waking,
                StateEvent::FaceRecognized { .. },
            ) => {
                self.alarm_status = AlarmStatus::Disarmed;
                SystemState::Kiosk
            },
            (
                SystemState::Kiosk | SystemState::Security | SystemState::CheckingAlarm,
                StateEvent::HaDisconnected,
            ) => SystemState::Offline,
            (
                SystemState::Kiosk | SystemState::Security,
                StateEvent::InactivityTimeout | StateEvent::NightModeStart,
            ) => {
                self.last_active_state = self.current_state;
                SystemState::Sleep
            },
            (SystemState::Sleep, StateEvent::AlarmStateChanged(status)) => {
                self.alarm_status = status;
                if status.is_armed() {
                    SystemState::Security
                } else {
                    SystemState::Sleep
                }
            },
            (SystemState::Sleep, StateEvent::PresenceDetected) => SystemState::Waking,
            (SystemState::Sleep, StateEvent::NightModeEnd) => SystemState::Waking,
            (SystemState::Waking, _) => Self::screen_for_status(self.alarm_status),
            (_, StateEvent::OtaStart) => SystemState::Update,
            (SystemState::Update, StateEvent::OtaComplete) => SystemState::Connecting,
            (SystemState::Update, StateEvent::OtaFailed) => SystemState::Error,
            (_, StateEvent::FatalError(_)) => SystemState::Error,
            (current, _) => current,
        };
        if old_state != new_state {
            self.current_state = new_state;
        }
        self.current_state
    }
}

} // verus!
