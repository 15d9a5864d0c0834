use vstd::prelude::*;

verus! {

/// The recurring schedule of game starts, in cron syntax with seconds:
/// every 30 seconds, starting at second 1 of each minute.
pub const GAME_SCHEDULE: &'static str = "1/30 * * * * *";

/// Why the time till the next game is not known.
#[derive(Clone, Copy, Debug, PartialEq, Eq, Structural)]
pub enum SchedularError {
    /// The scheduler could not be asked.
    JobSchedularError,
    /// The schedule has no upcoming start.
    CouldNotGetTimeTillGame,
    /// The system clock is before the Unix epoch.
    CouldNotGetSystemTime,
}

/// Whole seconds from `now_secs` plus `now_nanos` nanoseconds until `tick`
/// (all since the Unix epoch), rounded down; zero when the tick is not later.
pub open spec fn secs_until(tick: i64, now_secs: u64, now_nanos: u32) -> u64 {
    if tick > now_secs {
        if now_nanos == 0 {
            (tick - now_secs) as u64
        } else {
            (tick - now_secs - 1) as u64
        }
    } else {
        0
    }
}

/// The number of seconds until the next scheduled game, given that game's
/// start (`None` when the schedule has none) and the current time.
pub fn time_till_game(next_tick: Option<i64>, now_secs: u64, now_nanos: u32) -> (r: Result<
    u64,
    SchedularError,
>)
    requires
        now_nanos < 1_000_000_000,
    ensures
        next_tick is None ==> r == Err::<u64, SchedularError>(SchedularError::CouldNotGetTimeTillGame),
        next_tick is Some ==> r == Ok::<u64, SchedularError>(
            secs_until(next_tick->Some_0, now_secs, now_nanos),
        ),
{
    match next_tick {
        None => Err(SchedularError::CouldNotGetTimeTillGame),
        Some(tick) => {
            if tick <= 0 || (tick as u64) <= now_secs {
                Ok(0)
            } else {
                let diff = (tick as u64) - now_secs;
                if now_nanos == 0 {
                    Ok(diff)
                } else {
                    Ok(diff - 1)
                }
            }
        },
    }
}

} // verus!
