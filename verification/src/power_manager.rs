use vstd::prelude::*;
use vstd::string::*;
use chrono::{Local, NaiveTime, Timelike};

verus! {

/// Seconds in a day.
pub const SECONDS_PER_DAY: u32 = 86400;

/// Night mode starts at 22:00 when the configured start cannot be read.
pub const DEFAULT_NIGHT_START_SECS: u32 = 79200;

/// Night mode ends at 06:30 when the configured end cannot be read.
pub const DEFAULT_NIGHT_END_SECS: u32 = 23400;

/// The format of configured night mode times, e.g. `22:00`.
pub const TIME_FORMAT: &'static str = "%H:%M";

/// The time of day, in seconds since midnight, that
/// `chrono::NaiveTime::parse_from_str(s, fmt)` reads from `s`, or `None` when
/// it rejects the text.
pub uninterp spec fn chrono_parse_time(s: Seq<char>, fmt: Seq<char>) -> Option<u32>;

/// Calls `chrono::NaiveTime::parse_from_str` and takes the seconds since
/// midnight of the result (`NaiveTime` always lies within one day). Any
/// fraction of a second is dropped.
#[verifier::external_body]
fn parse_time_of_day(s: &str, fmt: &str) -> (r: Option<u32>)
    ensures
        r == chrono_parse_time(s@, fmt@),
        r matches Some(t) ==> t < SECONDS_PER_DAY,
{
    match NaiveTime::parse_from_str(s, fmt) {
        Ok(t) => Some(t.num_seconds_from_midnight()),
        Err(_) => None,
    }
}

/// Calls `chrono::Local::now` and takes the seconds since local midnight.
/// The value depends on the clock and the time zone; only its range is
/// stated. `chrono` panics here only when the system clock reads before
/// 1970 or the time-zone data is broken, which depends on the machine and
/// which no `requires` can exclude.
#[verifier::external_body]
pub(crate) fn local_seconds_of_day() -> (r: u32)
    ensures
        r < SECONDS_PER_DAY,
{
    Local::now().time().num_seconds_from_midnight()
}

/// The abstract state of a [`PowerManager`].
pub struct PowerView {
    pub night_mode_enabled: bool,
    pub night_start: u32,
    pub night_end: u32,
    pub inactivity_timeout_secs: u64,
    pub display_on: bool,
}

/// Whether the second of the day `t` lies in the night window; a window whose
/// start is later than its end spans midnight.
pub open spec fn night_at(p: PowerView, t: int) -> bool {
    if !p.night_mode_enabled {
        false
    } else if p.night_start > p.night_end {
        t >= p.night_start || t < p.night_end
    } else {
        t >= p.night_start && t < p.night_end
    }
}

/// The sysfs `bl_power` value that switches the backlight: `0` is on, `1` off.
pub open spec fn backlight_value(on: bool) -> Seq<char> {
    if on { "0"@ } else { "1"@ }
}

/// Display power and the night-mode window.
#[derive(Clone, Copy)]
pub struct PowerManager {
    night_mode_enabled: bool,
    night_start: u32,
    night_end: u32,
    inactivity_timeout_secs: u64,
    display_on: bool,
}

impl View for PowerManager {
    type V = PowerView;

    closed spec fn view(&self) -> PowerView {
        PowerView {
            night_mode_enabled: self.night_mode_enabled,
            night_start: self.night_start,
            night_end: self.night_end,
            inactivity_timeout_secs: self.inactivity_timeout_secs,
            display_on: self.display_on,
        }
    }
}

impl PowerManager {
    /// A manager with the display on. Night times are read as `HH:MM`; one
    /// that cannot be read falls back to 22:00 (start) or 06:30 (end).
    pub fn new(night_mode_enabled: bool, night_start_str: &str, night_end_str: &str, inactivity_timeout_secs: u64) -> (r: Self)
        ensures
            r@.night_mode_enabled == night_mode_enabled,
            r@.night_start == match chrono_parse_time(night_start_str@, TIME_FORMAT@) {
                Some(t) => t,
                None => DEFAULT_NIGHT_START_SECS,
            },
            r@.night_end == match chrono_parse_time(night_end_str@, TIME_FORMAT@) {
                Some(t) => t,
                None => DEFAULT_NIGHT_END_SECS,
            },
            r@.inactivity_timeout_secs == inactivity_timeout_secs,
            r@.display_on,
            r.wf(),
    {
        let night_start = match parse_time_of_day(night_start_str, TIME_FORMAT) {
            Some(t) => t,
            None => DEFAULT_NIGHT_START_SECS,
        };
        let night_end = match parse_time_of_day(night_end_str, TIME_FORMAT) {
            Some(t) => t,
            None => DEFAULT_NIGHT_END_SECS,
        };
        PowerManager { night_mode_enabled, night_start, night_end, inactivity_timeout_secs, display_on: true }
    }

    /// Both ends of the night window lie within the day.
    pub open spec fn wf(&self) -> bool {
        self@.night_start < SECONDS_PER_DAY && self@.night_end < SECONDS_PER_DAY
    }

    /// Records the requested display power. Returns the `bl_power` value to
    /// write when the power changes, `None` when it is already as requested.
    pub fn set_display_power(&mut self, turn_on: bool) -> (r: Option<String>)
        ensures
            old(self)@.display_on == turn_on ==> r is None && final(self)@ == old(self)@,
            old(self)@.display_on != turn_on ==> (r matches Some(v) && v@ == backlight_value(
                turn_on,
            )) && final(self)@ == (PowerView { display_on: turn_on, ..old(self)@ }),
    {
        if self.display_on == turn_on {
            return None;
        }
        self.display_on = turn_on;
        Some(if turn_on { "0".to_owned() } else { "1".to_owned() })
    }

    /// Whether `now_secs` (seconds since midnight) is night time.
    pub fn is_night_time_at(&self, now_secs: u32) -> (r: bool)
        ensures
            r == night_at(self@, now_secs as int),
    {
        if !self.night_mode_enabled {
            return false;
        }
        if self.night_start > self.night_end {
            now_secs >= self.night_start || now_secs < self.night_end
        } else {
            now_secs >= self.night_start && now_secs < self.night_end
        }
    }

    /// Whether it is night time now, by the local clock.
    pub fn is_night_time(&self) -> (r: bool)
        ensures
            exists|t: int| 0 <= t < SECONDS_PER_DAY && r == night_at(self@, t),
            !self@.night_mode_enabled ==> !r,
    {
        let now = local_seconds_of_day();
        let r = self.is_night_time_at(now);
        assert(0 <= now as int && (now as int) < SECONDS_PER_DAY && r == night_at(self@, now as int));
        r
    }

    pub fn is_display_on(&self) -> (r: bool)
        ensures
            r == self@.display_on,
    {
        self.display_on
    }

    pub fn inactivity_timeout_secs(&self) -> (r: u64)
        ensures
            r == self@.inactivity_timeout_secs,
    {
        self.inactivity_timeout_secs
    }
}

/// The display state after asking for `on`.
pub open spec fn power_after(p: PowerView, on: bool) -> PowerView {
    PowerView { display_on: on, ..p }
}

/// Asking twice for the same display power switches the backlight at most
/// once: the second request finds the display already as requested.
pub proof fn display_request_idempotent(p: PowerView, on: bool)
    ensures
        power_after(power_after(p, on), on) == power_after(p, on),
        power_after(p, on).display_on == on,
{
}

/// With night mode disabled it is never night.
pub proof fn disabled_night_mode_never_night(p: PowerView, t: int)
    requires
        !p.night_mode_enabled,
    ensures
        !night_at(p, t),
{
}

/// A window across midnight covers the evening from its start and the
/// morning until its end, and nothing in between.
pub proof fn overnight_window(p: PowerView, t: int)
    requires
        p.night_mode_enabled,
        p.night_end < p.night_start,
        0 <= t < SECONDS_PER_DAY,
    ensures
        night_at(p, t) <==> !(p.night_end <= t < p.night_start),
{
}

} // verus!
