//! How long an agent waits.

use vstd::prelude::*;
use vstd::utf8::encode_utf8;

use crate::config::runtime::{valid_runtime, AgentRuntimeConfig, AgentRuntimeConfigView};
use crate::hash::{fnv1a64, fnv1a64_of};
use crate::time::{seconds, Duration};

verus! {

/// The shortest wait before a connection is tried again.
pub const FIRST_BACKOFF_SECONDS: u64 = 5;

/// The longest wait before a connection is tried again.
pub const LAST_BACKOFF_SECONDS: u64 = 60;

/// A number of seconds, moved by up to a tenth of it either way, by an amount
/// that depends on the agent.
pub open spec fn jittered_seconds(base_seconds: u64, agent_id: Seq<char>) -> int {
    let spread = base_seconds / 10;
    base_seconds - spread + (fnv1a64_of(encode_utf8(agent_id)) as int) % (spread * 2 + 1)
}

/// Picks a number for an agent, from zero to twice a spread.
fn jitter(spread: u64, agent_id: &str) -> (r: u64)
    requires
        spread <= u64::MAX / 10,
    ensures
        r == (fnv1a64_of(encode_utf8(agent_id@)) as int) % (spread * 2 + 1),
{
    fnv1a64(agent_id.as_bytes()) % (spread * 2 + 1)
}

/// Computes how long an agent waits between polls, where that many seconds can
/// be counted in 64 bits.
pub fn jittered_interval_checked(base_seconds: u64, agent_id: &str) -> (r: Option<Duration>)
    ensures
        r == if jittered_seconds(base_seconds, agent_id@) <= u64::MAX {
            Some(seconds(jittered_seconds(base_seconds, agent_id@)))
        } else {
            None
        },
{
    let spread: u64 = base_seconds / 10;
    match (base_seconds - spread).checked_add(jitter(spread, agent_id)) {
        Some(total) => Some(Duration::from_secs(total)),
        None => None,
    }
}

/// Computes how long an agent waits between polls: the configured interval,
/// moved by up to a tenth of it, so that agents do not all ask at one time.
pub fn jittered_interval(base_seconds: u64, agent_id: &str) -> (r: Duration)
    requires
        jittered_seconds(base_seconds, agent_id@) <= u64::MAX,
    ensures
        r == seconds(jittered_seconds(base_seconds, agent_id@)),
{
    let spread: u64 = base_seconds / 10;
    if spread == 0 {
        assert((fnv1a64_of(encode_utf8(agent_id@)) as int) % 1 == 0);
        return Duration::from_secs(base_seconds);
    }
    Duration::from_secs(base_seconds - spread + jitter(spread, agent_id))
}

/// The wait before a connection is tried again grows from one failure to the
/// next, and is short again after a connection that was closed in good order.
#[derive(Debug)]
pub struct Backoff {
    next_seconds: u64,
}

/// Twice a wait, up to the longest.
pub open spec fn grown(wait: u64) -> u64 {
    if wait * 2 > LAST_BACKOFF_SECONDS {
        LAST_BACKOFF_SECONDS
    } else {
        (wait * 2) as u64
    }
}

/// How long to wait after a connection has ended, and how long after the next.
pub open spec fn backed_off(next_seconds: u64, closed: bool) -> (u64, u64) {
    let wait = if closed {
        FIRST_BACKOFF_SECONDS
    } else {
        next_seconds
    };
    (wait, grown(wait))
}

impl Backoff {
    /// The seconds of the next wait.
    pub closed spec fn next(&self) -> u64 {
        self.next_seconds
    }

    #[verifier::type_invariant]
    closed spec fn bounded(self) -> bool {
        FIRST_BACKOFF_SECONDS <= self.next_seconds <= LAST_BACKOFF_SECONDS
    }

    /// The wait of an agent that has not tried yet.
    pub fn new() -> (r: Self)
        ensures
            r.next() == FIRST_BACKOFF_SECONDS,
    {
        Backoff { next_seconds: FIRST_BACKOFF_SECONDS }
    }

    /// How long to wait now that a connection has ended, closed in good order or
    /// not.
    pub fn after_connection(&mut self, closed: bool) -> (r: Duration)
        ensures
            FIRST_BACKOFF_SECONDS <= old(self).next() <= LAST_BACKOFF_SECONDS,
            r == seconds(backed_off(old(self).next(), closed).0 as int),
            final(self).next() == backed_off(old(self).next(), closed).1,
    {
        proof {
            use_type_invariant(&*self);
        }
        let wait: u64 = if closed {
            FIRST_BACKOFF_SECONDS
        } else {
            self.next_seconds
        };
        let doubled: u64 = wait * 2;
        self.next_seconds =
        if doubled > LAST_BACKOFF_SECONDS {
            LAST_BACKOFF_SECONDS
        } else {
            doubled
        };
        Duration::from_secs(wait)
    }
}

impl Default for Backoff {
    fn default() -> (r: Self)
        ensures
            r.next() == FIRST_BACKOFF_SECONDS,
    {
        Backoff::new()
    }
}

/// How long an agent waits between heartbeats.
pub open spec fn heartbeat_wait(c: AgentRuntimeConfigView) -> Duration {
    seconds(c.agent.heartbeat_interval_seconds as int)
}

/// How long to wait until the next heartbeat.
pub fn heartbeat_interval(config: &AgentRuntimeConfig) -> (r: Duration)
    ensures
        r == seconds(config@.agent.heartbeat_interval_seconds as int),
        r == heartbeat_wait(config@),
{
    Duration::from_secs(config.agent.heartbeat_interval_seconds)
}

/// The wait between polls is within a tenth of the configured interval, and not
/// nothing.
pub proof fn law_jitter_stays_within_a_tenth(base_seconds: u64, agent_id: Seq<char>)
    ensures
        base_seconds - base_seconds / 10 <= jittered_seconds(base_seconds, agent_id)
            <= base_seconds + base_seconds / 10,
        base_seconds > 0 ==> jittered_seconds(base_seconds, agent_id) > 0,
        base_seconds < 10 ==> jittered_seconds(base_seconds, agent_id) == base_seconds,
{
}

/// The wait before a connection is tried again stays between the shortest and
/// the longest, and doubles until it is the longest.
pub proof fn law_backoff_stays_bounded(next_seconds: u64, closed: bool)
    requires
        FIRST_BACKOFF_SECONDS <= next_seconds <= LAST_BACKOFF_SECONDS,
    ensures
        ({
            let (wait, next) = backed_off(next_seconds, closed);
            &&& FIRST_BACKOFF_SECONDS <= wait <= LAST_BACKOFF_SECONDS
            &&& FIRST_BACKOFF_SECONDS <= next <= LAST_BACKOFF_SECONDS
            &&& wait <= next
            &&& next == 2 * wait || next == LAST_BACKOFF_SECONDS
            &&& closed ==> wait == FIRST_BACKOFF_SECONDS
        }),
{
}

/// Under a valid config an agent never waits nothing: neither between polls nor
/// between heartbeats.
pub proof fn law_valid_config_never_spins(c: AgentRuntimeConfigView, agent_id: Seq<char>)
    requires
        valid_runtime(c),
    ensures
        jittered_seconds(c.agent.config_poll_interval_seconds, agent_id) > 0,
        c.agent.heartbeat_interval_seconds > 0,
{
    law_jitter_stays_within_a_tenth(c.agent.config_poll_interval_seconds, agent_id);
}

/// The wait of an agent is set off from the least by the hash of its id, so that
/// agents spread evenly over the range of waits.
pub proof fn law_jitter_is_by_agent_id(base_seconds: u64, agent_id: Seq<char>)
    ensures
        ({
            let least = base_seconds - base_seconds / 10;
            let range = 2 * (base_seconds / 10) + 1;
            let offset = jittered_seconds(base_seconds, agent_id) - least;
            &&& 0 <= offset < range
            &&& offset == (fnv1a64_of(encode_utf8(agent_id)) as int) % range
        }),
{
}

/// After each failure the wait doubles, from five seconds up to a minute; after a
/// connection that was closed in good order it starts anew.
pub proof fn law_backoff_doubles_up_to_a_minute(wait: u64)
    requires
        5 <= wait <= 60,
    ensures
        backed_off(wait, false).0 == wait,
        2 * wait <= 60 ==> backed_off(wait, false).1 == 2 * wait,
        2 * wait > 60 ==> backed_off(wait, false).1 == 60,
        backed_off(wait, true) == (5u64, 10u64),
        FIRST_BACKOFF_SECONDS == 5,
{
}

/// Heartbeats are as many seconds apart as the config says.
pub proof fn law_heartbeats_keep_their_interval(c: AgentRuntimeConfigView)
    ensures
        heartbeat_wait(c).nanos == c.agent.heartbeat_interval_seconds * 1_000_000_000,
{
}

} // verus!
