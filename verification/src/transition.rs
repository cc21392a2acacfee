//! The timer that keeps the consensus going.

use vstd::prelude::*;

#[allow(unused_imports)]
use crate::time::{clock_said, duration_nanos, is_millis_of, is_now_millis};
use crate::time::unix_now_millis;
use std::time::Duration;

verus! {

/// Identifies a timer.
pub type TimerToken = usize;

/// The timer that the engine registers.
pub const ENGINE_TIMEOUT_TOKEN: TimerToken = 1;

/// The keep-alive interval in seconds.
pub const DEFAULT_DURATION_SECS: u64 = 1;

/// The earliest time for the next block, in milliseconds since the UNIX epoch.
pub open spec fn next_block_millis(timestamp: u64, minimum_block_time: u64) -> int {
    (timestamp + minimum_block_time) * 1000
}

/// How many milliseconds remain until the next block may come: at `now`, after a block with the
/// timestamp `latest`. It is the keep-alive interval if there is nothing to wait for.
pub open spec fn remaining_millis(latest: Option<u64>, minimum_block_time: u64, now: u128) -> int {
    match latest {
        None => 1000,
        Some(timestamp) => {
            let next = next_block_millis(timestamp, minimum_block_time);
            if now >= next || next - now > u64::MAX {
                1000
            } else {
                next - now
            }
        },
    }
}

/// For how many milliseconds the timer is set when it restarts: for the time that remains, but at
/// least 1 ms and at most the minimum block time. A minimum block time of 0 sets it for 0 ms, as
/// there is no time that keeps both bounds. `client` is there if the client is registered,
/// and then holds the timestamp of the latest block, if that can be obtained.
pub open spec fn restart_millis(
    client: Option<Option<u64>>,
    minimum_block_time: u64,
    now: u128,
) -> int {
    match client {
        None => 1000,
        Some(latest) => vstd::math::min(
            vstd::math::max(remaining_millis(latest, minimum_block_time, now), 1),
            minimum_block_time * 1000,
        ),
    }
}

/// Decides how long the engine waits before it looks again whether a block can be made.
#[derive(Clone, Copy, Debug, PartialEq, Eq)]
pub struct TransitionHandler {
    /// The minimum time duration between blocks, in seconds.
    pub minimum_block_time: u64,
}

impl TransitionHandler {
    /// Returns the milliseconds that `duration_remaining_at` waits.
    fn millis_remaining(&self, latest: Option<u64>, now: u128) -> (millis: u64)
        requires
            latest matches Some(timestamp) ==> timestamp + self.minimum_block_time <= u64::MAX,
        ensures
            millis == remaining_millis(latest, self.minimum_block_time, now),
    {
        match latest {
            Some(timestamp) => {
                // The block timestamp and minimum block time are specified in seconds.
                let next_block_time: u128 = (timestamp + self.minimum_block_time) as u128 * 1000;
                if now >= next_block_time {
                    // If the current time is already past the minimum time for the next block,
                    // just return the keep alive interval.
                    1000
                } else {
                    // Otherwise wait the exact number of milliseconds needed for the
                    // now >= next_block_time condition to be true.
                    let remaining: u128 = next_block_time - now;
                    if remaining <= u64::MAX as u128 {
                        remaining as u64
                    } else {
                        1000
                    }
                }
            },
            None => 1000,
        }
    }

    /// Returns the time duration that remains after the latest block, or a keep-alive time duration
    /// of 1s. `latest` is the timestamp of the latest block in seconds, and `now` the current time
    /// in milliseconds.
    pub fn duration_remaining_at(&self, latest: Option<u64>, now: u128) -> (span: Duration)
        requires
            latest matches Some(timestamp) ==> timestamp + self.minimum_block_time <= u64::MAX,
        ensures
            duration_nanos(span) == remaining_millis(latest, self.minimum_block_time, now)
                * 1_000_000,
    {
        Duration::from_millis(self.millis_remaining(latest, now))
    }

    /// Returns the approximate time duration between the latest block and the minimum block time
    /// or a keep-alive time duration of 1s, or nothing if the time is not available. `latest` is the
    /// timestamp of the latest block in seconds.
    pub fn duration_remaining_since_last_block(&self, latest: Option<u64>) -> (span: Option<
        Duration,
    >)
        requires
            latest matches Some(timestamp) ==> timestamp + self.minimum_block_time <= u64::MAX,
        ensures
            latest is None ==> span is Some,
            span matches Some(s) ==> exists|now: u128|
                duration_nanos(s) == #[trigger] remaining_millis(
                    latest,
                    self.minimum_block_time,
                    now,
                ) * 1_000_000,
            latest is Some ==> match span {
                Some(s) => exists|now: u128| #[trigger]
                    is_now_millis(Some(now)) && duration_nanos(s) == remaining_millis(
                        latest,
                        self.minimum_block_time,
                        now,
                    ) * 1_000_000,
                None => is_now_millis(None),
            },
    {
        if latest.is_none() {
            return Some(self.duration_remaining_at(latest, 0));
        }
        match unix_now_millis() {
            Some(now) => Some(self.duration_remaining_at(latest, now)),
            None => None,
        }
    }

    /// The timer that is started first, and for how long.
    pub fn initialize(&self) -> (timer: (TimerToken, Duration))
        ensures
            timer.0 == ENGINE_TIMEOUT_TOKEN,
            duration_nanos(timer.1) == DEFAULT_DURATION_SECS * 1_000_000_000,
    {
        (ENGINE_TIMEOUT_TOKEN, Duration::from_secs(DEFAULT_DURATION_SECS))
    }

    /// Whether a timer that ran out is the one of the engine. Then the client is asked to update
    /// its sealing, the engine looks at the imported transactions, and the timer is restarted.
    pub fn handles(&self, timer: TimerToken) -> (ours: bool)
        ensures
            ours == (timer == ENGINE_TIMEOUT_TOKEN),
    {
        timer == ENGINE_TIMEOUT_TOKEN
    }

    /// The timer that is restarted after it ran out, and for how long. `client` is there if the
    /// client is registered, and then holds the timestamp of the latest block, if that can be
    /// obtained. There is nothing if the time is not available.
    pub fn timeout(&self, client: Option<Option<u64>>) -> (timer: Option<(TimerToken, Duration)>)
        requires
            client matches Some(Some(timestamp)) ==> timestamp + self.minimum_block_time
                <= u64::MAX,
        ensures
            !(client matches Some(Some(_))) ==> timer is Some,
            timer matches Some(t) ==> t.0 == ENGINE_TIMEOUT_TOKEN && exists|now: u128|
                duration_nanos(t.1) == #[trigger] restart_millis(
                    client,
                    self.minimum_block_time,
                    now,
                ) * 1_000_000,
            client matches Some(Some(_)) ==> match timer {
                Some(t) => exists|now: u128| #[trigger]
                    is_now_millis(Some(now)) && duration_nanos(t.1) == restart_millis(
                        client,
                        self.minimum_block_time,
                        now,
                    ) * 1_000_000,
                None => is_now_millis(None),
            },
    {
        match client {
            Some(Some(_)) => match unix_now_millis() {
                Some(now) => Some(self.timeout_at(client, now)),
                None => None,
            },
            _ => Some(self.timeout_at(client, 0)),
        }
    }

    /// The timer that is restarted after it ran out, and for how long, when `now` is the current
    /// time in milliseconds.
    pub fn timeout_at(&self, client: Option<Option<u64>>, now: u128) -> (timer: (
        TimerToken,
        Duration,
    ))
        requires
            client matches Some(Some(timestamp)) ==> timestamp + self.minimum_block_time
                <= u64::MAX,
        ensures
            timer.0 == ENGINE_TIMEOUT_TOKEN,
            duration_nanos(timer.1) == restart_millis(client, self.minimum_block_time, now)
                * 1_000_000,
    {
        let millis: u64 = match client {
            // The client may not be registered yet on startup.
            None => 1000,
            Some(latest) => {
                // The duration should be at least 1ms and at most the minimum block time.
                let remaining: u64 = self.millis_remaining(latest, now);
                let at_least: u64 = if remaining < 1 {
                    1
                } else {
                    remaining
                };
                let longest: u128 = self.minimum_block_time as u128 * 1000;
                if at_least as u128 > longest {
                    longest as u64
                } else {
                    at_least
                }
            },
        };
        (ENGINE_TIMEOUT_TOKEN, Duration::from_millis(millis))
    }
}

/// The timer is never set for longer than the minimum block time once the client is there, and it
/// is set for at least a millisecond unless blocks need no time between them.
pub proof fn law_timer_within_bounds(latest: Option<u64>, minimum_block_time: u64, now: u128)
    ensures
        restart_millis(Some(latest), minimum_block_time, now) <= minimum_block_time * 1000,
        minimum_block_time > 0 ==> restart_millis(Some(latest), minimum_block_time, now) >= 1,
{
}

/// Waiting for as long as the time that remains brings the earliest time for the next block, and
/// no less than that does, where that time lies ahead within reach of the timer.
pub proof fn law_wait_reaches_block_time(timestamp: u64, minimum_block_time: u64, now: u128)
    requires
        now < next_block_millis(timestamp, minimum_block_time) <= now + u64::MAX,
    ensures
        now + remaining_millis(Some(timestamp), minimum_block_time, now) == next_block_millis(
            timestamp,
            minimum_block_time,
        ),
{
}

/// Whether a wait is that until the next block may come, at a time: until the minimum block time has
/// passed since the latest block, or for a second if there is nothing to wait for, or if that is out
/// of reach.
pub open spec fn waits_for_block(
    millis: int,
    latest: Option<u64>,
    minimum_block_time: u64,
    now: u128,
) -> bool {
    if latest matches Some(timestamp) && now < (timestamp + minimum_block_time) * 1000 && (timestamp
        + minimum_block_time) * 1000 - now <= u64::MAX {
        now + millis == (latest.unwrap() + minimum_block_time) * 1000
    } else {
        millis == 1000
    }
}

/// Whether the timer is set for a wait, but for at least a millisecond and at most the minimum block
/// time.
pub open spec fn is_bounded_wait(set: int, millis: int, minimum_block_time: u64) -> bool {
    &&& set <= minimum_block_time * 1000
    &&& 1 <= millis <= minimum_block_time * 1000 ==> set == millis
    &&& millis > minimum_block_time * 1000 ==> set == minimum_block_time * 1000
    &&& millis < 1 <= minimum_block_time ==> set == 1
}

/// The time that remains is that until the next block may come.
pub proof fn law_remaining_time(
    handler: TransitionHandler,
    latest: Option<u64>,
    now: u128,
    span: Duration,
)
    requires
        latest matches Some(timestamp) ==> timestamp + handler.minimum_block_time <= u64::MAX,
        call_ensures(TransitionHandler::duration_remaining_at, (&handler, latest, now), span),
    ensures
        exists|millis: int| #[trigger]
            waits_for_block(millis, latest, handler.minimum_block_time, now) && duration_nanos(span)
                == millis * 1_000_000,
{
    let millis = remaining_millis(latest, handler.minimum_block_time, now);
    assert(waits_for_block(millis, latest, handler.minimum_block_time, now));
}

/// The time that remains goes by the clock, and is a second without a latest block.
pub proof fn law_remaining_time_by_clock(
    handler: TransitionHandler,
    latest: Option<u64>,
    span: Option<Duration>,
)
    requires
        latest matches Some(timestamp) ==> timestamp + handler.minimum_block_time <= u64::MAX,
        call_ensures(
            TransitionHandler::duration_remaining_since_last_block,
            (&handler, latest),
            span,
        ),
    ensures
        latest is None ==> (span matches Some(s) && duration_nanos(s) == 1_000_000_000),
        latest is Some ==> match span {
            Some(s) => exists|now: u128, millis: int|
                {
                    &&& #[trigger] is_now_millis(Some(now))
                    &&& #[trigger] waits_for_block(millis, latest, handler.minimum_block_time, now)
                    &&& duration_nanos(s) == millis * 1_000_000
                },
            None => is_now_millis(None),
        },
{
    if let Some(s) = span {
        if latest is Some {
            let now = choose|now: u128| #[trigger]
                is_now_millis(Some(now)) && duration_nanos(s) == remaining_millis(
                    latest,
                    handler.minimum_block_time,
                    now,
                ) * 1_000_000;
            let millis = remaining_millis(latest, handler.minimum_block_time, now);
            assert(is_now_millis(Some(now)));
            assert(waits_for_block(millis, latest, handler.minimum_block_time, now));
        }
    }
}

/// The timer of the engine starts with a second, and only that timer is handled.
pub proof fn law_timer_started(
    handler: TransitionHandler,
    timer: (TimerToken, Duration),
    other: TimerToken,
    ours: bool,
)
    requires
        call_ensures(TransitionHandler::initialize, (&handler,), timer),
        call_ensures(TransitionHandler::handles, (&handler, other), ours),
    ensures
        duration_nanos(timer.1) == 1_000_000_000,
        ours <==> other == timer.0,
{
}

/// The timer of the engine restarts for the time until the next block may come, within its bounds,
/// and for a second without a client.
pub proof fn law_timer_restarted(
    handler: TransitionHandler,
    client: Option<Option<u64>>,
    now: u128,
    timer: (TimerToken, Duration),
)
    requires
        client matches Some(Some(timestamp)) ==> timestamp + handler.minimum_block_time <= u64::MAX,
        call_ensures(TransitionHandler::timeout_at, (&handler, client, now), timer),
    ensures
        timer.0 == ENGINE_TIMEOUT_TOKEN,
        client is None ==> duration_nanos(timer.1) == 1_000_000_000,
        client matches Some(latest) ==> exists|millis: int, set: int|
            {
                &&& #[trigger] waits_for_block(millis, latest, handler.minimum_block_time, now)
                &&& #[trigger] is_bounded_wait(set, millis, handler.minimum_block_time)
                &&& duration_nanos(timer.1) == set * 1_000_000
            },
{
    if let Some(latest) = client {
        let millis = remaining_millis(latest, handler.minimum_block_time, now);
        let set = restart_millis(client, handler.minimum_block_time, now);
        assert(waits_for_block(millis, latest, handler.minimum_block_time, now));
        assert(is_bounded_wait(set, millis, handler.minimum_block_time));
    }
}

/// The timer of the engine restarts by the clock.
pub proof fn law_timer_restarted_by_clock(
    handler: TransitionHandler,
    timestamp: u64,
    timer: Option<(TimerToken, Duration)>,
)
    requires
        timestamp + handler.minimum_block_time <= u64::MAX,
        call_ensures(TransitionHandler::timeout, (&handler, Some(Some(timestamp))), timer),
    ensures
        match timer {
            Some(t) => t.0 == ENGINE_TIMEOUT_TOKEN && exists|now: u128, millis: int, set: int|
                {
                    &&& #[trigger] is_now_millis(Some(now))
                    &&& #[trigger] waits_for_block(
                        millis,
                        Some(timestamp),
                        handler.minimum_block_time,
                        now,
                    )
                    &&& #[trigger] is_bounded_wait(set, millis, handler.minimum_block_time)
                    &&& duration_nanos(t.1) == set * 1_000_000
                },
            None => is_now_millis(None),
        },
{
    if let Some(t) = timer {
        let client = Some(Some(timestamp));
        let now = choose|now: u128| #[trigger]
            is_now_millis(Some(now)) && duration_nanos(t.1) == restart_millis(
                client,
                handler.minimum_block_time,
                now,
            ) * 1_000_000;
        let millis = remaining_millis(Some(timestamp), handler.minimum_block_time, now);
        let set = restart_millis(client, handler.minimum_block_time, now);
        assert(is_now_millis(Some(now)));
        assert(waits_for_block(millis, Some(timestamp), handler.minimum_block_time, now));
        assert(is_bounded_wait(set, millis, handler.minimum_block_time));
    }
}

/// Without a latest block the timer of the engine restarts for a second, whatever the clock says, or
/// for the minimum block time if that is shorter.
pub proof fn law_timer_restarted_without_block(
    handler: TransitionHandler,
    client: Option<Option<u64>>,
    timer: Option<(TimerToken, Duration)>,
)
    requires
        !(client matches Some(Some(_))),
        call_ensures(TransitionHandler::timeout, (&handler, client), timer),
    ensures
        timer matches Some(t) && t.0 == ENGINE_TIMEOUT_TOKEN && duration_nanos(t.1) == if client
            is None || handler.minimum_block_time >= 1 {
            1_000_000_000int
        } else {
            0
        },
{
}

} // verus!
