use vstd::prelude::*;
use vstd::string::*;
use crate::ha_client::{opt_view, DisarmRequest, HaEvent};
use crate::power_manager::{backlight_value, local_seconds_of_day, night_at, power_after, PowerManager, PowerView, SECONDS_PER_DAY};
use crate::state_machine::{initial_machine, step, AlarmStatus, MachineView, StateEvent, StateMachine, SystemState};

verus! {

/// What the core daemon must do after handling an input.
pub struct PanelEffects {
    /// The `bl_power` value to write when the backlight changes.
    pub backlight: Option<String>,
    /// Whether to start the face ID retry loop.
    pub start_face_id: bool,
    /// A disarm request to send to Home Assistant.
    pub disarm: Option<DisarmRequest>,
}

/// The abstract state of a [`Panel`].
pub struct PanelView {
    pub machine: MachineView,
    pub power: PowerView,
    pub presence: bool,
    pub face_id_available: bool,
}

/// The backlight switch between two display states, if any.
pub open spec fn display_switch(before: PowerView, after: PowerView) -> Option<Seq<char>> {
    if before.display_on != after.display_on {
        Some(backlight_value(after.display_on))
    } else {
        None
    }
}

/// The panel after asking for display power `on` and applying `e`.
pub open spec fn with_step(v: PanelView, e: StateEvent, display: Option<bool>) -> PanelView {
    PanelView {
        machine: step(v.machine, e),
        power: match display {
            Some(on) => power_after(v.power, on),
            None => v.power,
        },
        ..v
    }
}

/// The once-a-second check at second of day `now` with `idle` seconds since
/// the last presence: night time puts every screen but the security screen
/// and a sleeping one to sleep, and an idle kiosk sleeps after the timeout.
pub open spec fn tick_next(v: PanelView, now: int, idle: int) -> PanelView {
    let s = v.machine.current;
    if night_at(v.power, now) && s != SystemState::Sleep && s != SystemState::Security {
        with_step(v, StateEvent::NightModeStart, Some(false))
    } else if s == SystemState::Kiosk && idle > v.power.inactivity_timeout_secs {
        with_step(v, StateEvent::InactivityTimeout, Some(false))
    } else {
        v
    }
}

/// Presence from the radar: the display comes on and the machine wakes.
pub open spec fn presence_next(v: PanelView) -> PanelView {
    PanelView { presence: true, ..with_step(v, StateEvent::PresenceDetected, Some(true)) }
}

/// Whether presence starts the face ID loop: face ID is available and the
/// panel was on the security screen or the alarm is armed.
pub open spec fn presence_starts_face_id(v: PanelView) -> bool {
    v.face_id_available && (v.machine.current == SystemState::Security
        || v.machine.alarm.spec_armed())
}

/// An event of the Home Assistant connection.
pub open spec fn ha_next(v: PanelView, e: HaEvent) -> PanelView {
    match e {
        HaEvent::Connected => with_step(v, StateEvent::HaConnected, None),
        HaEvent::Disconnected => with_step(v, StateEvent::HaDisconnected, Some(true)),
        HaEvent::AlarmStateUpdated(st) => with_step(
            v,
            StateEvent::AlarmStateChanged(st),
            if step(v.machine, StateEvent::AlarmStateChanged(st)).alarm.spec_armed() {
                Some(true)
            } else {
                None
            },
        ),
        HaEvent::DisarmResult { success, .. } => if success {
            with_step(v, StateEvent::AlarmStateChanged(AlarmStatus::Disarmed), None)
        } else {
            v
        },
    }
}

/// The decisions of the core daemon: the state machine, the display power
/// and the presence flag, driven by timer, radar, face ID and Home Assistant
/// inputs.
pub struct Panel {
    machine: StateMachine,
    power: PowerManager,
    presence_active: bool,
    face_id_available: bool,
}

impl View for Panel {
    type V = PanelView;

    closed spec fn view(&self) -> PanelView {
        PanelView {
            machine: self.machine@,
            power: self.power@,
            presence: self.presence_active,
            face_id_available: self.face_id_available,
        }
    }
}

impl Panel {
    /// The screen agrees with the alarm status, and the night window lies
    /// within a day.
    #[verifier::type_invariant]
    spec fn consistent(self) -> bool {
        &&& self@.machine.screen_consistent()
        &&& self@.power.night_start < SECONDS_PER_DAY
        &&& self@.power.night_end < SECONDS_PER_DAY
    }

    /// A panel in the boot state with the display on and no presence.
    pub fn new(power: PowerManager, face_id_available: bool) -> (r: Self)
        requires
            power.wf(),
        ensures
            r@.machine == initial_machine(),
            r@.power == power@,
            !r@.presence,
            r@.face_id_available == face_id_available,
    {
        Panel { machine: StateMachine::new(), power, presence_active: false, face_id_available }
    }

    pub fn current_state(&self) -> (r: SystemState)
        ensures
            r == self@.machine.current,
            self@.machine.screen_consistent(),
    {
        proof {
            use_type_invariant(self);
        }
        self.machine.current_state()
    }

    pub fn alarm_status(&self) -> (r: AlarmStatus)
        ensures
            r == self@.machine.alarm,
    {
        *self.machine.alarm_status()
    }

    pub fn presence_active(&self) -> (r: bool)
        ensures
            r == self@.presence,
    {
        self.presence_active
    }

    pub fn display_on(&self) -> (r: bool)
        ensures
            r == self@.power.display_on,
    {
        self.power.is_display_on()
    }

    fn apply(&mut self, e: StateEvent, display: Option<bool>) -> (r: Option<String>)
        ensures
            final(self)@ == with_step(old(self)@, e, display),
            opt_view(r) == display_switch(old(self)@.power, final(self)@.power),
    {
        proof {
            use_type_invariant(&*self);
        }
        let mut machine = self.machine;
        machine.transition(e);
        self.machine = machine;
        match display {
            Some(on) => {
                let mut power = self.power;
                let r = power.set_display_power(on);
                self.power = power;
                r
            },
            None => None,
        }
    }

    /// Finishes initialisation: the wizard when unconfigured, else connecting.
    pub fn boot(&mut self, configured: bool) -> (r: SystemState)
        ensures
            final(self)@ == with_step(old(self)@, StateEvent::InitComplete { configured }, None),
            r == final(self)@.machine.current,
    {
        self.apply(StateEvent::InitComplete { configured }, None);
        self.machine.current_state()
    }

    /// The periodic check, at `now_secs` seconds since local midnight.
    pub fn on_tick_at(&mut self, now_secs: u32, idle_secs: u64) -> (r: PanelEffects)
        ensures
            final(self)@ == tick_next(old(self)@, now_secs as int, idle_secs as int),
            opt_view(r.backlight) == display_switch(old(self)@.power, final(self)@.power),
            !r.start_face_id,
            r.disarm is None,
    {
        let s = self.machine.current_state();
        let backlight = if self.power.is_night_time_at(now_secs) && s != SystemState::Sleep && s
            != SystemState::Security {
            self.apply(StateEvent::NightModeStart, Some(false))
        } else if s == SystemState::Kiosk && idle_secs > self.power.inactivity_timeout_secs() {
            self.apply(StateEvent::InactivityTimeout, Some(false))
        } else {
            None
        };
        PanelEffects { backlight, start_face_id: false, disarm: None }
    }

    /// The periodic check by the local clock.
    pub fn on_tick(&mut self, idle_secs: u64) -> (r: PanelEffects)
        ensures
            exists|t: int|
                0 <= t < SECONDS_PER_DAY && final(self)@ == tick_next(old(self)@, t, idle_secs as int),
            opt_view(r.backlight) == display_switch(old(self)@.power, final(self)@.power),
            !r.start_face_id,
            r.disarm is None,
    {
        let now = local_seconds_of_day();
        self.on_tick_at(now, idle_secs)
    }

    /// Presence reported by the radar.
    pub fn on_presence(&mut self) -> (r: PanelEffects)
        ensures
            final(self)@ == presence_next(old(self)@),
            opt_view(r.backlight) == display_switch(old(self)@.power, final(self)@.power),
            r.start_face_id == presence_starts_face_id(old(self)@),
            r.disarm is None,
    {
        proof {
            use_type_invariant(&*self);
        }
        let before = self.machine.current_state();
        self.presence_active = true;
        let backlight = self.apply(StateEvent::PresenceDetected, Some(true));
        let start_face_id = self.face_id_available && (before == SystemState::Security
            || self.machine.alarm_status().is_armed());
        PanelEffects { backlight, start_face_id, disarm: None }
    }

    /// The radar no longer sees anyone.
    pub fn on_presence_gone(&mut self)
        ensures
            final(self)@ == (PanelView { presence: false, ..old(self)@ }),
    {
        proof {
            use_type_invariant(&*self);
        }
        self.presence_active = false;
    }

    /// The recovery jumper was set while running.
    pub fn on_recovery_jumper(&mut self) -> (r: SystemState)
        ensures
            final(self)@ == with_step(old(self)@, StateEvent::RecoveryTriggered, None),
            r == final(self)@.machine.current,
    {
        self.apply(StateEvent::RecoveryTriggered, None);
        self.machine.current_state()
    }

    /// A face was recognised: disarm through Home Assistant without a PIN,
    /// unlock and light the display.
    pub fn on_face_recognized(&mut self, user: String) -> (r: PanelEffects)
        ensures
            final(self)@ == with_step(old(self)@, StateEvent::FaceRecognized { user }, Some(true)),
            opt_view(r.backlight) == display_switch(old(self)@.power, final(self)@.power),
            !r.start_face_id,
            r.disarm matches Some(d) && d.pin@.len() == 0 && d.entity_id@.len() == 0,
    {
        let disarm = DisarmRequest { pin: String::new(), entity_id: String::new() };
        let backlight = self.apply(StateEvent::FaceRecognized { user }, Some(true));
        PanelEffects { backlight, start_face_id: false, disarm: Some(disarm) }
    }

    /// An event of the Home Assistant connection.
    pub fn on_ha_event(&mut self, e: HaEvent) -> (r: PanelEffects)
        ensures
            final(self)@ == ha_next(old(self)@, e),
            opt_view(r.backlight) == display_switch(old(self)@.power, final(self)@.power),
            !r.start_face_id,
            r.disarm is None,
    {
        proof {
            use_type_invariant(&*self);
        }
        let backlight = match e {
            HaEvent::Connected => self.apply(StateEvent::HaConnected, None),
            HaEvent::Disconnected => self.apply(StateEvent::HaDisconnected, Some(true)),
            HaEvent::AlarmStateUpdated(st) => {
                let mut machine = self.machine;
                machine.transition(StateEvent::AlarmStateChanged(st));
                self.machine = machine;
                if self.machine.alarm_status().is_armed() {
                    let mut power = self.power;
                    let r = power.set_display_power(true);
                    self.power = power;
                    r
                } else {
                    None
                }
            },
            HaEvent::DisarmResult { success, .. } => {
                if success {
                    self.apply(StateEvent::AlarmStateChanged(AlarmStatus::Disarmed), None)
                } else {
                    None
                }
            },
        };
        PanelEffects { backlight, start_face_id: false, disarm: None }
    }
}

/// Whether a downloaded update may be installed now: never while the
/// security screen is shown.
pub fn install_window_open(state: SystemState) -> (r: bool)
    ensures
        r == (state != SystemState::Security),
{
    state != SystemState::Security
}

/// An armed report wakes the display and shows the security screen from every
/// active or sleeping screen, night mode included.
pub proof fn armed_report_overrides_night(v: PanelView, st: AlarmStatus)
    requires
        st.spec_armed(),
        v.machine.current == SystemState::Sleep || v.machine.current == SystemState::Kiosk
            || v.machine.current == SystemState::Security || v.machine.current
            == SystemState::CheckingAlarm,
    ensures
        ha_next(v, HaEvent::AlarmStateUpdated(st)).machine.current == SystemState::Security,
        ha_next(v, HaEvent::AlarmStateUpdated(st)).power.display_on,
{
}

/// The periodic check never blanks or leaves the security screen.
pub proof fn tick_keeps_security_screen(v: PanelView, now: int, idle: int)
    requires
        v.machine.current == SystemState::Security,
    ensures
        tick_next(v, now, idle) == v,
{
}

/// At night the periodic check turns the display off on every screen but the
/// security screen.
pub proof fn night_tick_blanks_display(v: PanelView, now: int, idle: int)
    requires
        night_at(v.power, now),
        v.machine.current != SystemState::Security,
    ensures
        v.machine.current != SystemState::Sleep ==> !tick_next(v, now, idle).power.display_on,
        v.machine.current == SystemState::Kiosk ==> tick_next(v, now, idle).machine.current
            == SystemState::Sleep,
{
}

/// Outside the night window the periodic check acts only on an idle kiosk:
/// after the inactivity timeout it sleeps, remembering the kiosk, with the
/// display off. Every other screen, the offline fail-safe screen included,
/// and the display are left as they are.
pub proof fn daytime_tick_sleeps_only_idle_kiosk(v: PanelView, now: int, idle: int)
    requires
        !night_at(v.power, now),
    ensures
        !(v.machine.current == SystemState::Kiosk && idle > v.power.inactivity_timeout_secs)
            ==> tick_next(v, now, idle) == v,
        (v.machine.current == SystemState::Kiosk && idle > v.power.inactivity_timeout_secs)
            ==> tick_next(v, now, idle) == (PanelView {
            machine: MachineView {
                current: SystemState::Sleep,
                last_active: SystemState::Kiosk,
                alarm: v.machine.alarm,
            },
            power: PowerView { display_on: false, ..v.power },
            ..v
        }),
{
}

/// The periodic check never turns the display on, and never changes the
/// alarm status, presence or the power settings.
pub proof fn tick_only_darkens(v: PanelView, now: int, idle: int)
    ensures
        tick_next(v, now, idle).power.display_on ==> v.power.display_on,
        tick_next(v, now, idle).power == (PowerView {
            display_on: tick_next(v, now, idle).power.display_on,
            ..v.power
        }),
        tick_next(v, now, idle).machine.alarm == v.machine.alarm,
        tick_next(v, now, idle).presence == v.presence,
        v.machine.current == SystemState::Sleep ==> tick_next(v, now, idle) == v,
{
}

/// An Alarmo report turns the display on exactly when the resulting alarm
/// status is armed; any other report leaves the display power as it is, so a
/// disarmed report keeps a night-darkened panel dark. On the checking,
/// kiosk, security and sleep screens the report becomes the alarm status.
pub proof fn alarm_report_display(v: PanelView, st: AlarmStatus)
    ensures
        ha_next(v, HaEvent::AlarmStateUpdated(st)).machine.alarm.spec_armed() ==> ha_next(
            v,
            HaEvent::AlarmStateUpdated(st),
        ).power == (PowerView { display_on: true, ..v.power }),
        !ha_next(v, HaEvent::AlarmStateUpdated(st)).machine.alarm.spec_armed() ==> ha_next(
            v,
            HaEvent::AlarmStateUpdated(st),
        ).power == v.power,
        (v.machine.current == SystemState::CheckingAlarm || v.machine.current == SystemState::Kiosk
            || v.machine.current == SystemState::Security || v.machine.current == SystemState::Sleep)
            ==> ha_next(v, HaEvent::AlarmStateUpdated(st)).machine.alarm == st,
        ha_next(v, HaEvent::AlarmStateUpdated(st)).presence == v.presence,
{
}

/// The connection events: a regained connection checks the alarm and leaves
/// the display alone; a lost one lights the display and shows the offline
/// fail-safe screen instead of the kiosk or security screen; a refused
/// disarm changes nothing, and a successful one records the disarmed status
/// without touching the display.
pub proof fn connection_events(v: PanelView, msg: Option<String>)
    ensures
        ha_next(v, HaEvent::Connected).power == v.power,
        (v.machine.current == SystemState::Connecting || v.machine.current == SystemState::Offline)
            ==> ha_next(v, HaEvent::Connected).machine.current == SystemState::CheckingAlarm,
        ha_next(v, HaEvent::Disconnected).power == (PowerView { display_on: true, ..v.power }),
        (v.machine.current == SystemState::Kiosk || v.machine.current == SystemState::Security)
            ==> ha_next(v, HaEvent::Disconnected).machine == (MachineView {
            current: SystemState::Offline,
            ..v.machine
        }),
        ha_next(v, HaEvent::DisarmResult { success: false, message: msg }) == v,
        ha_next(v, HaEvent::DisarmResult { success: true, message: msg }).power == v.power,
        (v.machine.current == SystemState::Kiosk || v.machine.current == SystemState::Security
            || v.machine.current == SystemState::CheckingAlarm) ==> ha_next(
            v,
            HaEvent::DisarmResult { success: true, message: msg },
        ).machine == (MachineView {
            current: SystemState::Kiosk,
            alarm: AlarmStatus::Disarmed,
            ..v.machine
        }),
{
}

/// Presence always lights the display and wakes a sleeping panel.
pub proof fn presence_lights_display(v: PanelView)
    ensures
        presence_next(v).power.display_on,
        presence_next(v).presence,
        v.machine.current == SystemState::Sleep ==> presence_next(v).machine.current
            == SystemState::Waking,
{
}

/// Losing Home Assistant always lights the display.
pub proof fn disconnect_lights_display(v: PanelView)
    ensures
        ha_next(v, HaEvent::Disconnected).power.display_on,
{
}

} // verus!
