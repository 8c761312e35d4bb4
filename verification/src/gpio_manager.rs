use vstd::prelude::*;

verus! {

/// The GPIO line on which the ESP32-C3 signals presence (active high).
pub const DEFAULT_ESP32_WAKE_PIN: u8 = 4;

/// The GPIO line of the recovery jumper (active low).
pub const DEFAULT_RECOVERY_JUMPER_PIN: u8 = 21;

/// Presence and recovery signals from the GPIO lines.
#[derive(Debug, Clone, Copy, PartialEq, Eq, Structural)]
pub enum GpioEvent {
    PresenceWakeTriggered,
    PresenceGone,
    RecoveryJumperPressed,
}

/// The GPIO lines the panel watches.
pub struct GpioManager {
    wake_pin: u8,
    recovery_pin: u8,
}

impl GpioManager {
    pub fn new(wake_pin: u8, recovery_pin: u8) -> (r: Self)
        ensures
            r.spec_wake_pin() == wake_pin,
            r.spec_recovery_pin() == recovery_pin,
    {
        GpioManager { wake_pin, recovery_pin }
    }

    pub closed spec fn spec_wake_pin(&self) -> u8 {
        self.wake_pin
    }

    pub closed spec fn spec_recovery_pin(&self) -> u8 {
        self.recovery_pin
    }

    pub fn wake_pin(&self) -> (r: u8)
        ensures
            r == self.spec_wake_pin(),
    {
        self.wake_pin
    }

    pub fn recovery_pin(&self) -> (r: u8)
        ensures
            r == self.spec_recovery_pin(),
    {
        self.recovery_pin
    }

    /// Whether a reading of the recovery line (`Some(is_low)`, `None` when
    /// the line could not be read) asks for recovery: the jumper pulls it low.
    pub fn jumper_active(reading: Option<bool>) -> (r: bool)
        ensures
            r == (reading == Some(true)),
    {
        match reading {
            Some(low) => low,
            None => false,
        }
    }

    /// The event for an edge on the wake line, given its level afterwards.
    pub fn wake_edge_event(level_high: bool) -> (r: GpioEvent)
        ensures
            level_high ==> r == GpioEvent::PresenceWakeTriggered,
            !level_high ==> r == GpioEvent::PresenceGone,
    {
        if level_high {
            GpioEvent::PresenceWakeTriggered
        } else {
            GpioEvent::PresenceGone
        }
    }
}

} // verus!
