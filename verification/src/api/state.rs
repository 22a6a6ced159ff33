//! Configuration of the router and the per-key rate limiter.

use vstd::prelude::*;
use crate::base::error::DocumentError;

verus! {

/// The limits and names that the router works with.
#[derive(Debug, Clone)]
pub struct AppConfig {
    /// The largest payload, in bytes, that is rendered while the client waits.
    pub max_sync_size_bytes: usize,
    pub max_upload_size_bytes: usize,
    pub rate_limit_per_minute: u32,
    pub rate_limit_burst: u32,
    /// The time that an inline render may take, in milliseconds.
    pub sync_timeout_ms: u64,
    pub kafka_topic_priority: String,
    pub kafka_topic_bulk: String,
    pub s3_bucket_documents: String,
    pub s3_bucket_temp: String,
    pub enable_compression: bool,
}

impl Default for AppConfig {
    fn default() -> (config: AppConfig)
        ensures
            config.max_sync_size_bytes == 1_048_576,
            config.max_upload_size_bytes == 104_857_600,
            config.rate_limit_per_minute == 100,
            config.rate_limit_burst == 20,
            config.sync_timeout_ms == 5000,
            config.kafka_topic_priority@ == "doc.requests.priority"@,
            config.kafka_topic_bulk@ == "doc.requests.bulk"@,
            config.s3_bucket_documents@ == "documents"@,
            config.s3_bucket_temp@ == "temp-uploads"@,
            config.enable_compression,
    {
        AppConfig {
            max_sync_size_bytes: 1_048_576,
            max_upload_size_bytes: 104_857_600,
            rate_limit_per_minute: 100,
            rate_limit_burst: 20,
            sync_timeout_ms: 5000,
            kafka_topic_priority: "doc.requests.priority".to_owned(),
            kafka_topic_bulk: "doc.requests.bulk".to_owned(),
            s3_bucket_documents: "documents".to_owned(),
            s3_bucket_temp: "temp-uploads".to_owned(),
            enable_compression: true,
        }
    }
}

/// A rate limiter that keeps one quota state per key, backed by the keyed
/// limiter of the `governor` crate with its concurrent map and its default
/// clock. What it holds changes with time and is not modelled; only the
/// replenish interval and the burst size that it was made with are.
#[verifier::external_body]
pub struct KeyedRateLimiter {
    inner: governor::RateLimiter<
        String,
        governor::state::keyed::DashMapStateStore<String>,
        governor::clock::DefaultClock,
    >,
}

/// The time in which a limiter replenishes one cell, in nanoseconds.
pub uninterp spec fn limiter_interval(limiter: KeyedRateLimiter) -> nat;

/// The burst size that a limiter was made with.
pub uninterp spec fn limiter_burst(limiter: KeyedRateLimiter) -> nat;

/// The nanoseconds in a minute.
pub const NANOS_PER_MINUTE: u64 = 60_000_000_000;

/// The longest time, in nanoseconds, that a burst may take to replenish.
pub const MAX_BURST_WINDOW_NANOS: u64 = 0x4000_0000_0000_0000;

/// The time in which one cell is replenished at `per_minute` cells a
/// minute, in nanoseconds: the minute shared among the cells, and one
/// nanosecond at least.
pub open spec fn replenish_interval(per_minute: u32) -> nat {
    if per_minute == 0 || NANOS_PER_MINUTE / (per_minute as u64) == 0 {
        1
    } else {
        (NANOS_PER_MINUTE / (per_minute as u64)) as nat
    }
}

/// Whether a quota of `per_minute` cells a minute with bursts of `burst`
/// cells can be kept: both are positive, and the time in which a whole burst
/// replenishes fits the limiter's clock.
pub open spec fn quota_is_valid(per_minute: u32, burst: u32) -> bool {
    &&& per_minute > 0
    &&& burst > 0
    &&& replenish_interval(per_minute) * burst <= MAX_BURST_WINDOW_NANOS
}

/// `Quota::per_minute`, `Quota::allow_burst` and
/// `RateLimiter::dashmap_with_clock` of `governor`: a keyed limiter with no
/// state yet, for the given quota. The limiter keeps the interval in which
/// one cell is replenished, one nanosecond at least, and the burst size.
/// Zero is refused by the quota's types, and the limiter multiplies the
/// interval by the burst size in 64 bits, so the product must fit.
#[verifier::external_body]
fn make_limiter(per_minute: u32, burst: u32) -> (limiter: KeyedRateLimiter)
    requires
        quota_is_valid(per_minute, burst),
    ensures
        limiter_interval(limiter) == replenish_interval(per_minute),
        limiter_burst(limiter) == burst,
{
    let rate = std::num::NonZeroU32::new(per_minute).unwrap();
    let quota = governor::Quota::per_minute(rate).allow_burst(
        std::num::NonZeroU32::new(burst).unwrap(),
    );
    let clock = governor::clock::DefaultClock::default();
    KeyedRateLimiter { inner: governor::RateLimiter::dashmap_with_clock(quota, clock) }
}

/// `RateLimiter::check_key` of `governor`: tries to let one cell through
/// under `key` and says whether it went through. The answer depends on the
/// clock and on earlier calls, so nothing is promised of it.
#[verifier::external_body]
fn check_key(limiter: &KeyedRateLimiter, key: &String) -> (allowed: bool) {
    limiter.inner.check_key(key).is_ok()
}

impl KeyedRateLimiter {
    /// A limiter for `per_minute` requests a minute with bursts of `burst`
    /// for each key, or `None` where that quota cannot be kept.
    pub fn new(per_minute: u32, burst: u32) -> (limiter: Option<KeyedRateLimiter>)
        ensures
            limiter is Some <==> quota_is_valid(per_minute, burst),
            limiter is Some ==> limiter_interval(limiter->0) == replenish_interval(per_minute)
                && limiter_burst(limiter->0)
                == burst,
    {
        if per_minute == 0 || burst == 0 {
            return None;
        }
        let shared: u64 = NANOS_PER_MINUTE / (per_minute as u64);
        let interval: u64 = if shared == 0 {
            1
        } else {
            shared
        };
        assert((interval as int) * (burst as int) <= 60_000_000_000 * 0xffff_ffff) by (nonlinear_arith)
            requires
                0 <= interval <= 60_000_000_000,
                0 <= burst <= 0xffff_ffff,
        ;
        let window: u128 = (interval as u128) * (burst as u128);
        if window > MAX_BURST_WINDOW_NANOS as u128 {
            return None;
        }
        Some(make_limiter(per_minute, burst))
    }

    /// Counts one request against the quota of `key` and says whether the
    /// request is within it.
    pub fn check(&self, key: &String) -> (allowed: bool) {
        check_key(self, key)
    }
}

/// What the request handlers share: the configuration and the rate limiter.
pub struct ApiState {
    pub rate_limiter: KeyedRateLimiter,
    pub config: AppConfig,
}

impl ApiState {
    /// The state for `config`, with a fresh rate limiter for its quota. A
    /// quota that cannot be kept is a configuration error.
    pub fn new(config: AppConfig) -> (state: Result<ApiState, DocumentError>)
        ensures
            state is Ok <==> quota_is_valid(config.rate_limit_per_minute, config.rate_limit_burst),
            state is Ok ==> state->Ok_0.config == config && limiter_interval(
                state->Ok_0.rate_limiter,
            ) == replenish_interval(config.rate_limit_per_minute) && limiter_burst(
                state->Ok_0.rate_limiter,
            )
                == config.rate_limit_burst,
            state is Err ==> state->Err_0 is ConfigError,
    {
        match KeyedRateLimiter::new(config.rate_limit_per_minute, config.rate_limit_burst) {
            Some(rate_limiter) => Ok(ApiState { rate_limiter, config }),
            None => Err(DocumentError::ConfigError("invalid rate limit quota".to_owned())),
        }
    }
}

} // verus!
