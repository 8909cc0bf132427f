use vstd::prelude::*;

verus! {

/// An exponential retry schedule: the delay starts at `initial_interval_ms`
/// and is multiplied after each attempt until it reaches `max_interval_ms`.
/// Times are in milliseconds; the multiplier is in thousandths.
#[derive(Clone, Copy, Debug, PartialEq, Eq, Structural)]
pub struct BackoffPolicy {
    pub initial_interval_ms: u64,
    pub multiplier_milli: u64,
    pub max_interval_ms: u64,
    /// Time after which retrying is abandoned; `None` retries forever.
    pub max_elapsed_time_ms: Option<u64>,
}

/// Multiplier of a schedule that names none: one and a half.
pub const DEFAULT_MULTIPLIER_MILLI: u64 = 1500;

/// Schedule for waiting until an adapter is available or powered on: from
/// 100 ms up to 500 ms, forever.
pub fn bluetooth_adapter_wait() -> (policy: BackoffPolicy)
    ensures
        policy == (BackoffPolicy {
            initial_interval_ms: 100,
            multiplier_milli: DEFAULT_MULTIPLIER_MILLI,
            max_interval_ms: 500,
            max_elapsed_time_ms: None,
        }),
{
    BackoffPolicy {
        initial_interval_ms: 100,
        multiplier_milli: DEFAULT_MULTIPLIER_MILLI,
        max_interval_ms: 500,
        max_elapsed_time_ms: None,
    }
}

/// Schedule for connecting to a device: from 1 s up to 5 s, abandoned after
/// 30 s.
pub fn bluetooth_device_connect() -> (policy: BackoffPolicy)
    ensures
        policy == (BackoffPolicy {
            initial_interval_ms: 1_000,
            multiplier_milli: DEFAULT_MULTIPLIER_MILLI,
            max_interval_ms: 5_000,
            max_elapsed_time_ms: Some(30_000u64),
        }),
{
    BackoffPolicy {
        initial_interval_ms: 1_000,
        multiplier_milli: DEFAULT_MULTIPLIER_MILLI,
        max_interval_ms: 5_000,
        max_elapsed_time_ms: Some(30_000),
    }
}

/// Schedule for waiting until the output stream format is available: from
/// 100 ms, five times longer each time, up to 1 s, abandoned after 8 s.
pub fn audio_output_stream_wait() -> (policy: BackoffPolicy)
    ensures
        policy == (BackoffPolicy {
            initial_interval_ms: 100,
            multiplier_milli: 5_000,
            max_interval_ms: 1_000,
            max_elapsed_time_ms: Some(8_000u64),
        }),
{
    BackoffPolicy {
        initial_interval_ms: 100,
        multiplier_milli: 5_000,
        max_interval_ms: 1_000,
        max_elapsed_time_ms: Some(8_000),
    }
}

} // verus!
