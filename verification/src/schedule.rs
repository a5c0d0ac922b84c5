//! When to wake up again: the pause between two business cycles.

use crate::api::{ApiClient, ApiError, RecommendData, Reply};
use crate::error::AgentError;
use crate::text::{parse_u64, parsed_u64};
use vstd::prelude::*;
use vstd::string::*;

verus! {

/// Seconds added past the server's stated refresh instant before polling again.
pub const REFRESH_MARGIN_SECS: u64 = 300;

/// Seconds to wait after a failed cycle before starting afresh: six hours.
pub const COOLDOWN_SECS: u64 = 21600;

/// The server's clock and the instant of its next daily refresh.
#[derive(Clone, Copy, Debug, PartialEq, Eq, Structural)]
pub struct RefreshWindow {
    pub server_now: u64,
    pub next_refresh: u64,
}

/// The pause, in seconds, that lasts until the margin past `next_refresh`,
/// seen from `server_now`: the time still to go, never less than zero, plus
/// the margin.
pub open spec fn pause_secs(server_now: int, next_refresh: int) -> int {
    if next_refresh > server_now {
        next_refresh - server_now + REFRESH_MARGIN_SECS as int
    } else {
        REFRESH_MARGIN_SECS as int
    }
}

impl RefreshWindow {
    /// The pause for this window, as a mathematical integer.
    pub open spec fn pause(self) -> int {
        pause_secs(self.server_now as int, self.next_refresh as int)
    }

    /// The pause as a number of seconds that a sleep can take: the pause
    /// itself, and `u64::MAX` only where the pause is longer than that.
    pub open spec fn sleep_secs(self) -> u64 {
        if self.pause() <= u64::MAX {
            self.pause() as u64
        } else {
            u64::MAX
        }
    }

    /// Seconds to sleep before the next cycle.
    pub fn sleep_seconds(&self) -> (secs: u64)
        ensures
            secs == self.sleep_secs(),
    {
        let remaining: u64 = if self.next_refresh > self.server_now {
            self.next_refresh - self.server_now
        } else {
            0
        };
        if remaining <= u64::MAX - REFRESH_MARGIN_SECS {
            remaining + REFRESH_MARGIN_SECS
        } else {
            u64::MAX
        }
    }
}

/// The pause is never shorter than the margin, and it is exactly the margin
/// once the refresh instant has been reached or passed.
pub proof fn lemma_pause_at_least_margin(server_now: int, next_refresh: int)
    ensures
        pause_secs(server_now, next_refresh) >= REFRESH_MARGIN_SECS,
        next_refresh <= server_now ==> pause_secs(server_now, next_refresh) == REFRESH_MARGIN_SECS,
        next_refresh > server_now ==> pause_secs(server_now, next_refresh) == (next_refresh
            - server_now) + REFRESH_MARGIN_SECS,
{
}

/// The sleep for a window is never shorter than the margin, whichever of
/// its two instants comes first.
pub proof fn lemma_sleep_at_least_margin(window: RefreshWindow)
    ensures
        window.sleep_secs() >= REFRESH_MARGIN_SECS,
        window.next_refresh <= window.server_now ==> window.sleep_secs() == REFRESH_MARGIN_SECS,
{
}

/// The window that the service's recommendation describes. Both of its
/// timestamps have to be decimal numbers; the first that is not is the
/// error.
pub open spec fn window_of(data: RecommendData) -> Result<RefreshWindow, AgentError> {
    match parsed_u64(data.now@) {
        None => Err(AgentError::Timestamp(data.now)),
        Some(server_now) => match parsed_u64(data.refresh_time@) {
            None => Err(AgentError::Timestamp(data.refresh_time)),
            Some(next_refresh) => Ok(RefreshWindow { server_now, next_refresh }),
        },
    }
}

/// The window that the refresh query delivered: the payload that was read
/// has to hold two decimal timestamps, and a query that failed has no window.
pub open spec fn refresh_of(read: Result<RecommendData, ApiError>) -> Result<
    RefreshWindow,
    AgentError,
> {
    match read {
        Ok(data) => window_of(data),
        Err(e) => Err(AgentError::Api(e)),
    }
}

/// How long the refresh query tells the agent to sleep, in seconds.
pub open spec fn sleep_of(read: Result<RecommendData, ApiError>) -> Result<u64, AgentError> {
    match refresh_of(read) {
        Ok(window) => Ok(window.sleep_secs()),
        Err(e) => Err(e),
    }
}

/// Reads the two timestamps of a recommendation.
pub fn refresh_window(data: &RecommendData) -> (r: Result<RefreshWindow, AgentError>)
    ensures
        r == window_of(*data),
{
    let server_now = match parse_u64(data.now.as_str()) {
        Some(value) => value,
        None => {
            return Err(AgentError::Timestamp(data.now.clone()));
        },
    };
    let next_refresh = match parse_u64(data.refresh_time.as_str()) {
        Some(value) => value,
        None => {
            return Err(AgentError::Timestamp(data.refresh_time.clone()));
        },
    };
    Ok(RefreshWindow { server_now, next_refresh })
}

/// The number of seconds to sleep until just past the next refresh that
/// the reply of the refresh query announces.
pub fn sleep_until_refresh(client: &ApiClient, reply: Reply<RecommendData>) -> (r: Result<
    u64,
    AgentError,
>)
    ensures
        r == sleep_of(reply.read()),
{
    match client.get_recommend(reply) {
        Ok(window) => Ok(window.sleep_seconds()),
        Err(e) => Err(e),
    }
}

/// The refresh query yields a window exactly when its payload was read and
/// both timestamps in it are decimal numbers; the window then holds those
/// two numbers. A payload with a timestamp that is no number fails the query
/// as a whole.
pub proof fn lemma_refresh_needs_both_timestamps(read: Result<RecommendData, ApiError>)
    ensures
        refresh_of(read) is Ok <==> (read matches Ok(data) && parsed_u64(data.now@) is Some
            && parsed_u64(data.refresh_time@) is Some),
        refresh_of(read) matches Ok(window) ==> (read matches Ok(data) && parsed_u64(data.now@)
            == Some(window.server_now) && parsed_u64(data.refresh_time@) == Some(
            window.next_refresh,
        )),
        sleep_of(read) is Ok <==> refresh_of(read) is Ok,
{
}

} // verus!
