//! Reconnection backoff: how long the manager sleeps after a failed attempt.

use vstd::prelude::*;

verus! {

/// Consecutive failed attempts after which the manager takes a long pause.
pub const MAX_RESUME_RETRIES: u32 = 3;
/// The long pause, in milliseconds.
pub const RESUME_WAIT_MS: u64 = 30000;
/// Time allowed from a heartbeat to its acknowledgement, in milliseconds.
pub const HEARTBEAT_ACK_TIMEOUT_MS: u64 = 7000;
/// Centre of the jittered base delay, in milliseconds.
pub const RECONNECT_BASE_DELAY_MS: u64 = 1000;
/// Ceiling of a short reconnect delay, in milliseconds.
pub const RECONNECT_MAX_DELAY_MS: u64 = 5000;
/// The public-messages intent, bit 30.
pub const DEFAULT_INTENTS: u32 = 1073741824;

/// The tunable constants of a session manager.
#[derive(Debug, Clone, Copy, PartialEq, Eq, Structural)]
pub struct GatewaySettings {
    /// Intents bitmask sent with Identify.
    pub intents: u32,
    pub heartbeat_ack_timeout_ms: u64,
    pub max_resume_retries: u32,
    pub long_pause_ms: u64,
    pub reconnect_base_delay_ms: u64,
    pub reconnect_max_delay_ms: u64,
}

/// Lower end of the jittered base delay: 0.8 times the base, rounded down.
pub open spec fn jitter_low(s: GatewaySettings) -> u64 {
    (s.reconnect_base_delay_ms as int * 4 / 5) as u64
}

/// Upper end of the jittered base delay: 1.2 times the base, rounded down,
/// and at most the largest `u64`.
pub open spec fn jitter_high(s: GatewaySettings) -> u64 {
    let h = s.reconnect_base_delay_ms as int * 6 / 5;
    if h <= u64::MAX as int {
        h as u64
    } else {
        u64::MAX
    }
}

/// The sleep after a failed attempt and the new retry count, given the
/// consecutive failures counted so far and the sampled base delay.
pub open spec fn reconnect_delay(s: GatewaySettings, count: u32, base: u64) -> (u64, u32) {
    if count >= s.max_resume_retries {
        (s.long_pause_ms, 0u32)
    } else {
        let scaled = base as int * (count as int + 1);
        let delay = if scaled <= s.reconnect_max_delay_ms as int {
            scaled as u64
        } else {
            s.reconnect_max_delay_ms
        };
        (delay, (count + 1) as u32)
    }
}

/// The retry count after one failed attempt for each sampled base delay in `bases`.
pub open spec fn count_after(s: GatewaySettings, count: u32, bases: Seq<u64>) -> u32
    decreases bases.len(),
{
    if bases.len() == 0 {
        count
    } else {
        reconnect_delay(s, count_after(s, count, bases.drop_last()), bases.last()).1
    }
}

impl GatewaySettings {
    /// The default constants.
    pub open spec fn standard_spec() -> GatewaySettings {
        GatewaySettings {
            intents: DEFAULT_INTENTS,
            heartbeat_ack_timeout_ms: HEARTBEAT_ACK_TIMEOUT_MS,
            max_resume_retries: MAX_RESUME_RETRIES,
            long_pause_ms: RESUME_WAIT_MS,
            reconnect_base_delay_ms: RECONNECT_BASE_DELAY_MS,
            reconnect_max_delay_ms: RECONNECT_MAX_DELAY_MS,
        }
    }

    /// The default constants.
    pub fn standard() -> (r: GatewaySettings)
        ensures
            r == GatewaySettings::standard_spec(),
    {
        GatewaySettings {
            intents: DEFAULT_INTENTS,
            heartbeat_ack_timeout_ms: HEARTBEAT_ACK_TIMEOUT_MS,
            max_resume_retries: MAX_RESUME_RETRIES,
            long_pause_ms: RESUME_WAIT_MS,
            reconnect_base_delay_ms: RECONNECT_BASE_DELAY_MS,
            reconnect_max_delay_ms: RECONNECT_MAX_DELAY_MS,
        }
    }

    /// The range from which the base delay is sampled.
    pub fn jitter_range(&self) -> (r: (u64, u64))
        ensures
            r == (jitter_low(*self), jitter_high(*self)),
            r.0 <= r.1,
    {
        let base = self.reconnect_base_delay_ms as u128;
        let low = (base * 4 / 5) as u64;
        let high_wide = base * 6 / 5;
        let high = if high_wide <= u64::MAX as u128 {
            high_wide as u64
        } else {
            u64::MAX
        };
        (low, high)
    }
}

/// The sleep after a failed attempt and the new retry count (see [`reconnect_delay`]).
pub fn next_reconnect_delay(s: &GatewaySettings, count: u32, base: u64) -> (r: (u64, u32))
    ensures
        r == reconnect_delay(*s, count, base),
{
    if count >= s.max_resume_retries {
        (s.long_pause_ms, 0)
    } else {
        assert(base as int * (count as int + 1) <= u64::MAX as int * 0x1_0000_0000) by (nonlinear_arith)
            requires
                count < u32::MAX,
        ;
        let scaled = (base as u128) * (count as u128 + 1);
        let delay = if scaled <= s.reconnect_max_delay_ms as u128 {
            scaled as u64
        } else {
            s.reconnect_max_delay_ms
        };
        (delay, count + 1)
    }
}

/// Relies on `rand::random_range` over an inclusive range: a value inside the
/// range, drawn from the thread-local generator.
#[verifier::external_body]
pub(crate) fn sample_between(low: u64, high: u64) -> (r: u64)
    requires
        low <= high,
    ensures
        low <= r <= high,
{
    rand::random_range(low..=high)
}

/// Starting from a reset counter, each of the first `max_resume_retries`
/// consecutive failures sleeps at most the delay ceiling and raises the
/// counter by one; the next failure sleeps for the long pause and resets the
/// counter, so the pattern repeats. This holds whatever base delays were sampled.
pub proof fn lemma_long_pause_after_retries(s: GatewaySettings, bases: Seq<u64>, next: u64)
    requires
        bases.len() == s.max_resume_retries,
    ensures
        count_after(s, 0, bases) == s.max_resume_retries,
        reconnect_delay(s, count_after(s, 0, bases), next) == (s.long_pause_ms, 0u32),
        count_after(s, 0, bases.push(next)) == 0,
        forall|k: int| 0 <= k < bases.len() ==> {
            &&& #[trigger] count_after(s, 0, bases.take(k)) == k
            &&& reconnect_delay(s, count_after(s, 0, bases.take(k)), bases[k]).0 <= s.reconnect_max_delay_ms
        },
{
    lemma_count_after_short_run(s, bases);
    assert(bases.push(next).drop_last() =~= bases);
    assert forall|k: int| 0 <= k < bases.len() implies {
        &&& #[trigger] count_after(s, 0, bases.take(k)) == k
        &&& reconnect_delay(s, count_after(s, 0, bases.take(k)), bases[k]).0 <= s.reconnect_max_delay_ms
    } by {
        lemma_count_after_short_run(s, bases.take(k));
    }
}

/// Below the retry ceiling, each failure raises the counter by one.
proof fn lemma_count_after_short_run(s: GatewaySettings, bases: Seq<u64>)
    requires
        bases.len() <= s.max_resume_retries,
    ensures
        count_after(s, 0, bases) == bases.len(),
    decreases bases.len(),
{
    if bases.len() > 0 {
        lemma_count_after_short_run(s, bases.drop_last());
    }
}

} // verus!
