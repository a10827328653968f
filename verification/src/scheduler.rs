use vstd::prelude::*;

use crate::command::Command;
use crate::config::ConfigWrapper;

verus! {

/// One wall-clock instant, split into civil fields.
#[derive(Clone, Copy, Debug, PartialEq, Eq, Structural)]
pub struct WallClock {
    pub year: u16,
    pub month: u8,
    pub day: u8,
    pub hour: u8,
    pub minute: u8,
    pub second: u8,
}

/// The fields lie in their calendar ranges and the year fits the protocol's
/// two-digit offset from 2000.
pub open spec fn spec_clock_in_range(c: WallClock) -> bool {
    &&& 2000 <= c.year <= 2255
    &&& 1 <= c.month <= 12
    &&& 1 <= c.day <= 31
    &&& c.hour <= 23
    &&& c.minute <= 59
    &&& c.second <= 59
}

/// Relies on chrono::Local::now and its Datelike/Timelike accessors: the
/// month is 1 to 12, the day 1 to 31, the hour below 24, the minute and
/// second below 60; the year is whatever the clock shows. The value depends
/// on the wall clock; nothing more is promised of it. A machine whose clock
/// sits before the Unix epoch would abort inside chrono, so the process
/// should not start the scheduler on such a clock.
#[verifier::external_body]
fn read_local_clock() -> (r: (i32, u8, u8, u8, u8, u8))
    ensures
        1 <= r.1 <= 12,
        1 <= r.2 <= 31,
        r.3 <= 23,
        r.4 <= 59,
        r.5 <= 59,
{
    let now = chrono::Local::now();
    (
        chrono::Datelike::year(&now),
        chrono::Datelike::month(&now) as u8,
        chrono::Datelike::day(&now) as u8,
        chrono::Timelike::hour(&now) as u8,
        chrono::Timelike::minute(&now) as u8,
        chrono::Timelike::second(&now) as u8,
    )
}

/// A year the packed register can carry: two digits past 2000.
pub open spec fn spec_clamp_year(y: int) -> u16 {
    if y < 2000 {
        2000u16
    } else if y > 2255 {
        2255u16
    } else {
        y as u16
    }
}

fn clamp_year(y: i32) -> (r: u16)
    ensures
        r == spec_clamp_year(y as int),
        2000 <= r <= 2255,
{
    if y < 2000 {
        2000
    } else if y > 2255 {
        2255
    } else {
        y as u16
    }
}

/// The wall clock now, with the year saturated into the range the protocol
/// carries.
pub fn current_wall_clock() -> (r: WallClock)
    ensures
        spec_clock_in_range(r),
{
    let (year, month, day, hour, minute, second) = read_local_clock();
    WallClock { year: clamp_year(year), month, day, hour, minute, second }
}

/// The three time registers, packed: register 12 holds the month in its
/// high byte and the years since 2000 in its low byte; register 13 the hour
/// and the day; register 14 the second and the minute.
pub open spec fn spec_timesync_values(c: WallClock) -> (u16, u16, u16) {
    (
        ((c.month as u16) * 256 + (c.year - 2000) as u16) as u16,
        ((c.hour as u16) * 256 + (c.day as u16)) as u16,
        ((c.second as u16) * 256 + (c.minute as u16)) as u16,
    )
}

/// Pack a wall-clock instant into the three time registers.
pub fn timesync_values(c: WallClock) -> (r: (u16, u16, u16))
    requires
        spec_clock_in_range(c),
    ensures
        r == spec_timesync_values(c),
{
    (
        (c.month as u16) * 256 + (c.year - 2000),
        (c.hour as u16) * 256 + (c.day as u16),
        (c.second as u16) * 256 + (c.minute as u16),
    )
}

/// The cron-driven periodic jobs; the one job in the core writes the
/// inverter clock registers from the wall clock at each firing.
pub struct Scheduler {
    pub config: ConfigWrapper,
}

impl Scheduler {
    pub fn new(config: ConfigWrapper) -> (r: Scheduler)
        ensures
            r.config == config,
    {
        Scheduler { config }
    }

    /// The commands one timesync firing issues: registers 12, 13 and 14 of
    /// every enabled inverter, packed from the given instant.
    pub fn timesync_commands(&self, clock: WallClock) -> (r: Vec<Command>)
        requires
            spec_clock_in_range(clock),
        ensures
            ({
                let enabled = self.config.spec_config().inverters@.filter(
                    |inv: crate::config::Inverter| inv.enabled,
                );
                let values = spec_timesync_values(clock);
                &&& r@.len() == 3 * enabled.len()
                &&& forall|k: int|
                    0 <= k < enabled.len() ==> #[trigger] r@[3 * k] == Command::SetHold(
                        enabled[k],
                        12u16,
                        values.0,
                    ) && r@[3 * k + 1] == Command::SetHold(enabled[k], 13u16, values.1) && r@[3 * k
                        + 2] == Command::SetHold(enabled[k], 14u16, values.2)
            }),
    {
        let values = timesync_values(clock);
        let enabled = self.config.enabled_inverters();
        let mut r: Vec<Command> = Vec::new();
        let mut i: usize = 0;
        while i < enabled.len()
            invariant
                i <= enabled@.len(),
                enabled@ == self.config.spec_config().inverters@.filter(
                    |inv: crate::config::Inverter| inv.enabled,
                ),
                values == spec_timesync_values(clock),
                r@.len() == 3 * i,
                forall|k: int|
                    0 <= k < i ==> #[trigger] r@[3 * k] == Command::SetHold(
                        enabled@[k],
                        12u16,
                        values.0,
                    ) && r@[3 * k + 1] == Command::SetHold(enabled@[k], 13u16, values.1) && r@[3 * k
                        + 2] == Command::SetHold(enabled@[k], 14u16, values.2),
            decreases enabled@.len() - i,
        {
            r.push(Command::SetHold(enabled[i].duplicate(), 12, values.0));
            r.push(Command::SetHold(enabled[i].duplicate(), 13, values.1));
            r.push(Command::SetHold(enabled[i].duplicate(), 14, values.2));
            i += 1;
        }
        r
    }

    /// Whether the timesync job is configured to run: the scheduler is
    /// enabled and a non-empty cron expression is present.
    pub fn timesync_enabled(&self) -> (r: bool)
        ensures
            r == (match self.config.spec_config().scheduler {
                Some(s) => s.enabled && (match s.timesync_cron {
                    Some(cron) => cron@.len() > 0,
                    None => false,
                }),
                None => false,
            }),
    {
        match self.config.scheduler() {
            Some(s) => {
                if !s.enabled {
                    return false;
                }
                match &s.timesync_cron {
                    Some(cron) => cron.as_str().unicode_len() > 0,
                    None => false,
                }
            },
            None => false,
        }
    }
}

} // verus!
