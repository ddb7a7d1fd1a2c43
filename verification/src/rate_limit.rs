//! The per-key token-bucket rate limiter. Token counts are held in fixed
//! point: one token is `window_ms` scaled units, so a steady rate of
//! `requests_per_window` tokens per window is exactly `requests_per_window`
//! scaled units per millisecond, and every quantity here is an integer.
//! The bucket map is owned by the limiter and handed in at construction,
//! so independent limiters never share state.

use vstd::prelude::*;

use crate::config::{rate_limit_config_wf, RateLimitConfig};
use crate::errors::{SecurityError, SecurityResult};
use crate::strmap::StrMap;

verus! {

/// One key's bucket: the scaled token count and the wall-clock instant
/// (milliseconds since the Unix epoch) of the last refill.
#[derive(Clone, Copy, Debug, PartialEq, Eq, Structural)]
pub struct TokenBucket {
    pub tokens_scaled: u128,
    pub last_refill_ms: u64,
}

/// One token, in scaled units: the window length in milliseconds.
pub open spec fn window_ms(cfg: RateLimitConfig) -> int {
    cfg.window_secs * 1000
}

/// The bucket capacity (the burst size) in scaled units.
pub open spec fn capacity_scaled(cfg: RateLimitConfig) -> int {
    cfg.burst_size * window_ms(cfg)
}

/// The bucket bound: the token count never exceeds the capacity (and, the
/// count being unsigned, never falls below zero).
pub open spec fn bucket_wf(b: TokenBucket, cfg: RateLimitConfig) -> bool {
    b.tokens_scaled <= capacity_scaled(cfg)
}

/// A full bucket created lazily on a key's first request.
pub open spec fn spec_fresh_bucket(cfg: RateLimitConfig, now: u64) -> TokenBucket {
    TokenBucket { tokens_scaled: capacity_scaled(cfg) as u128, last_refill_ms: now }
}

/// Lazy refill: tokens grow by `requests_per_window` scaled units per
/// elapsed millisecond, capped at the capacity; the refill instant moves
/// forward only (never negative elapsed time).
pub open spec fn spec_refill(b: TokenBucket, cfg: RateLimitConfig, now: u64) -> TokenBucket {
    if now > b.last_refill_ms {
        let filled = b.tokens_scaled + (now - b.last_refill_ms) * cfg.requests_per_window;
        TokenBucket {
            tokens_scaled: (if filled > capacity_scaled(cfg) {
                capacity_scaled(cfg)
            } else {
                filled
            }) as u128,
            last_refill_ms: now,
        }
    } else {
        b
    }
}

/// Whether a check at `now` admits the request: after the pending refill
/// the bucket holds at least one whole token.
pub open spec fn check_admits(b: TokenBucket, cfg: RateLimitConfig, now: u64) -> bool {
    spec_refill(b, cfg, now).tokens_scaled >= window_ms(cfg)
}

/// The bucket after a check at `now`: the refill always sticks, and on
/// admission exactly one token is consumed.
pub open spec fn bucket_after_check(b: TokenBucket, cfg: RateLimitConfig, now: u64) -> TokenBucket {
    let r = spec_refill(b, cfg, now);
    if r.tokens_scaled >= window_ms(cfg) {
        TokenBucket {
            tokens_scaled: (r.tokens_scaled - window_ms(cfg)) as u128,
            last_refill_ms: r.last_refill_ms,
        }
    } else {
        r
    }
}

/// The whole-second delay reported on rejection: the time until one token
/// will be available, `ceil(deficit / rate)`, floored at one second.
pub open spec fn spec_retry_after(b: TokenBucket, cfg: RateLimitConfig) -> int {
    let d = window_ms(cfg) - b.tokens_scaled;
    let m = 1000 * cfg.requests_per_window;
    let c = (d + m - 1) / m;
    if c < 1 {
        1
    } else {
        c
    }
}

/// A bucket is swept once idle for more than ten windows.
pub open spec fn bucket_expired(b: TokenBucket, cfg: RateLimitConfig, now: u64) -> bool {
    now > b.last_refill_ms + 10 * window_ms(cfg)
}

/// Refill and consume keep the bucket inside its bounds: after any check,
/// `0 <= tokens <= capacity` (the token count is unsigned, so the lower
/// bound is the type's).
pub proof fn lemma_bucket_bounds(b: TokenBucket, cfg: RateLimitConfig, now: u64)
    requires
        rate_limit_config_wf(cfg),
        bucket_wf(b, cfg),
    ensures
        bucket_wf(spec_refill(b, cfg, now), cfg),
        bucket_wf(bucket_after_check(b, cfg, now), cfg),
{
    assert(capacity_scaled(cfg) >= window_ms(cfg)) by (nonlinear_arith)
        requires
            cfg.burst_size >= 1,
            cfg.window_secs >= 1,
    ;
    assert(window_ms(cfg) >= 0);
    if now > b.last_refill_ms {
        assert((now - b.last_refill_ms) * cfg.requests_per_window >= 0) by (nonlinear_arith)
            requires
                now > b.last_refill_ms,
                cfg.requests_per_window >= 1,
        ;
    }
}

/// High-performance token-bucket rate limiter: one bucket per distinct
/// identifier, created lazily, refilled lazily, consumed once per admitted
/// request. A check for one key never touches another key's bucket.
pub struct RateLimiter {
    pub config: RateLimitConfig,
    pub buckets: StrMap<TokenBucket>,
    pub total_admitted: u64,
}

impl RateLimiter {
    /// A runnable limiter: a well-formed configuration when enabled, a
    /// well-formed store, and every bucket inside its bounds.
    pub open spec fn wf(&self) -> bool {
        &&& self.config.enabled ==> rate_limit_config_wf(self.config)
        &&& self.buckets.wf()
        &&& forall|k: Seq<char>| #[trigger]
            self.buckets@.dom().contains(k) ==> bucket_wf(self.buckets@[k], self.config)
    }

    /// A limiter with no buckets.
    pub fn new(config: RateLimitConfig) -> (l: Self)
        requires
            config.enabled ==> rate_limit_config_wf(config),
        ensures
            l.wf(),
            l.config == config,
            l.buckets@ == Map::<Seq<char>, TokenBucket>::empty(),
            l.total_admitted == 0,
    {
        RateLimiter { config, buckets: StrMap::new(), total_admitted: 0 }
    }

    /// Admit or reject a request for `identifier` at wall-clock instant
    /// `now_ms`. Disabled configuration is a pure pass-through: the call
    /// succeeds and no bucket is created. Otherwise the key's bucket (a
    /// full one on first sight) is refilled and one token consumed on
    /// success; on failure no token is consumed and the error carries the
    /// whole-second delay until one will be available, at least 1. No
    /// other key's bucket changes either way.
    pub fn check_at(&mut self, identifier: &str, now_ms: u64) -> (r: SecurityResult<()>)
        requires
            old(self).wf(),
            identifier@.len() >= 1,
        ensures
            final(self).wf(),
            final(self).config == old(self).config,
            !old(self).config.enabled ==> r is Ok && final(self).buckets@ == old(
                self,
            ).buckets@ && *final(self) == *old(self),
            old(self).config.enabled ==> {
                let cfg = old(self).config;
                let b0 = if old(self).buckets@.dom().contains(identifier@) {
                    old(self).buckets@[identifier@]
                } else {
                    spec_fresh_bucket(cfg, now_ms)
                };
                &&& (r is Ok <==> check_admits(b0, cfg, now_ms))
                &&& final(self).buckets@ == old(self).buckets@.insert(
                    identifier@,
                    bucket_after_check(b0, cfg, now_ms),
                )
                &&& (r is Ok ==> final(self).total_admitted == if old(self).total_admitted
                    < u64::MAX {
                    old(self).total_admitted + 1
                } else {
                    u64::MAX as int
                })
                &&& match r {
                    Result::Ok(_) => true,
                    Result::Err(e) => e matches SecurityError::RateLimitExceeded {
                        retry_after,
                    } && retry_after == spec_retry_after(spec_refill(b0, cfg, now_ms), cfg)
                        && retry_after >= 1,
                }
            },
    {
        if !self.config.enabled {
            return Ok(());
        }
        let ghost cfg = self.config;
        let b0 = match self.buckets.get(identifier) {
            Some(b) => b,
            None => self.fresh_bucket(now_ms),
        };
        proof {
            lemma_bucket_bounds(b0, cfg, now_ms);
        }
        let refilled = self.refill_bucket(b0, now_ms);
        let wm: u128 = (self.config.window_secs as u128) * 1000;
        if refilled.tokens_scaled >= wm {
            let nb = TokenBucket {
                tokens_scaled: refilled.tokens_scaled - wm,
                last_refill_ms: refilled.last_refill_ms,
            };
            self.buckets.insert(identifier.to_owned(), nb);
            if self.total_admitted < u64::MAX {
                self.total_admitted = self.total_admitted + 1;
            }
            Ok(())
        } else {
            self.buckets.insert(identifier.to_owned(), refilled);
            let retry = self.retry_after_secs(refilled);
            Err(SecurityError::RateLimitExceeded { retry_after: retry })
        }
    }

    /// A full bucket for a key seen for the first time.
    fn fresh_bucket(&self, now_ms: u64) -> (b: TokenBucket)
        requires
            self.wf(),
            self.config.enabled,
        ensures
            b == spec_fresh_bucket(self.config, now_ms),
            bucket_wf(b, self.config),
    {
        let cap = self.capacity();
        TokenBucket { tokens_scaled: cap, last_refill_ms: now_ms }
    }

    /// The bucket capacity in scaled units, as executable arithmetic.
    fn capacity(&self) -> (c: u128)
        requires
            self.wf(),
            self.config.enabled,
        ensures
            c == capacity_scaled(self.config),
    {
        let b: u128 = self.config.burst_size as u128;
        let w: u128 = self.config.window_secs as u128;
        proof {
            assert(b * w * 1000 <= 0xffff_ffff_u128 * 31_536_000 * 1000 && b * (w * 1000) == b
                * w * 1000) by (nonlinear_arith)
                requires
                    b <= 0xffff_ffff_u128,
                    1 <= w <= 31_536_000,
            ;
        }
        b * w * 1000
    }

    /// Apply the pending refill to a bucket.
    fn refill_bucket(&self, b: TokenBucket, now_ms: u64) -> (r: TokenBucket)
        requires
            self.wf(),
            self.config.enabled,
            bucket_wf(b, self.config),
        ensures
            r == spec_refill(b, self.config, now_ms),
            bucket_wf(r, self.config),
    {
        proof {
            lemma_bucket_bounds(b, self.config, now_ms);
        }
        if now_ms > b.last_refill_ms {
            let elapsed: u128 = (now_ms - b.last_refill_ms) as u128;
            let rate: u128 = self.config.requests_per_window as u128;
            proof {
                assert(elapsed * rate <= 0xffff_ffff_ffff_ffff_u128 * 0xffff_ffff_u128)
                    by (nonlinear_arith)
                    requires
                        elapsed <= 0xffff_ffff_ffff_ffff_u128,
                        rate <= 0xffff_ffff_u128,
                ;
            }
            let add: u128 = elapsed * rate;
            let cap: u128 = self.capacity();
            let filled: u128 = if b.tokens_scaled <= u128::MAX - add {
                b.tokens_scaled + add
            } else {
                u128::MAX
            };
            proof {
                assert(add <= 0xffff_ffff_ffff_ffff_u128 * 0xffff_ffff_u128);
                assert(cap <= 0xffff_ffff_u128 * 31_536_000_000) by (nonlinear_arith)
                    requires
                        cap as int == self.config.burst_size * (self.config.window_secs
                            * 1000),
                        self.config.burst_size <= 0xffff_ffff_u32,
                        self.config.window_secs <= 31_536_000,
                ;
                assert(b.tokens_scaled + add < u128::MAX);
            }
            TokenBucket {
                tokens_scaled: if filled > cap {
                    cap
                } else {
                    filled
                },
                last_refill_ms: now_ms,
            }
        } else {
            b
        }
    }

    /// The whole-second retry hint for a bucket that cannot admit.
    fn retry_after_secs(&self, b: TokenBucket) -> (r: u64)
        requires
            self.wf(),
            self.config.enabled,
            b.tokens_scaled < window_ms(self.config),
        ensures
            r == spec_retry_after(b, self.config),
            r >= 1,
    {
        let wm: u128 = (self.config.window_secs as u128) * 1000;
        let d: u128 = wm - b.tokens_scaled;
        let m: u128 = 1000 * (self.config.requests_per_window as u128);
        let c: u128 = (d + m - 1) / m;
        proof {
            assert(c <= d) by (nonlinear_arith)
                requires
                    d >= 1,
                    m >= 1,
                    c == ((d + m - 1) as int) / (m as int),
            ;
            assert(d <= 0xffff_ffff_ffff_ffff_u128);
        }
        if c < 1 {
            1
        } else {
            c as u64
        }
    }

    /// Current statistics: how many requests were admitted in total, and
    /// how many buckets are live.
    pub fn stats(&self) -> (s: RateLimitStats)
        requires
            self.wf(),
        ensures
            s.total_requests == self.total_admitted,
            s.active_buckets == self.buckets@.dom().len(),
    {
        RateLimitStats {
            total_requests: self.total_admitted,
            active_buckets: self.buckets.len(),
        }
    }

    /// Sweep buckets idle for more than ten windows; call periodically.
    /// Every surviving bucket is unchanged, and exactly the non-expired
    /// ones survive.
    pub fn cleanup_old_buckets(&mut self, now_ms: u64)
        requires
            old(self).wf(),
        ensures
            final(self).wf(),
            final(self).config == old(self).config,
            final(self).total_admitted == old(self).total_admitted,
            forall|k: Seq<char>| #[trigger]
                final(self).buckets@.dom().contains(k) ==> old(self).buckets@.dom().contains(k)
                    && final(self).buckets@[k] == old(self).buckets@[k],
            forall|k: Seq<char>| #[trigger]
                old(self).buckets@.dom().contains(k) ==> (final(self).buckets@.dom().contains(k)
                    <==> !bucket_expired(old(self).buckets@[k], old(self).config, now_ms)),
    {
        let ghost cfg = self.config;
        let ghost pre = self.buckets.entries@;
        let mut marks: Vec<bool> = Vec::new();
        let mut i: usize = 0;
        while i < self.buckets.entries.len()
            invariant
                old(self).wf(),
                *self == *old(self),
                self.buckets.entries@ == pre,
                self.config == cfg,
                i <= pre.len(),
                marks@.len() == i,
                forall|j: int|
                    0 <= j < i ==> marks@[j] == !bucket_expired(pre[j].1, cfg, now_ms),
            decreases pre.len() - i,
        {
            let b = self.buckets.entries[i].1;
            let keep = !self.bucket_is_expired(b, now_ms);
            marks.push(keep);
            i = i + 1;
        }
        self.buckets.retain_marked(&marks);
        proof {
            crate::strmap::lemma_map_of_entries(pre);
            assert forall|k: Seq<char>| #[trigger] old(self).buckets@.dom().contains(k) implies (
            final(self).buckets@.dom().contains(k) <==> !bucket_expired(
                old(self).buckets@[k],
                cfg,
                now_ms,
            )) by {
                crate::strmap::lemma_map_of_dom(pre, k);
                let j = choose|j: int| 0 <= j < pre.len() && pre[j].0@ == k;
                crate::strmap::lemma_map_of_index(pre, j);
                if !bucket_expired(old(self).buckets@[k], cfg, now_ms) {
                    assert(marks@[j]);
                }
                if final(self).buckets@.dom().contains(k) {
                    let j2 = choose|j2: int|
                        0 <= j2 < pre.len() && pre[j2].0@ == k && marks@[j2];
                    crate::strmap::lemma_map_of_index(pre, j2);
                }
            }
        }
    }

    /// Whether a bucket has been idle past the sweep threshold.
    fn bucket_is_expired(&self, b: TokenBucket, now_ms: u64) -> (r: bool)
        requires
            self.wf(),
        ensures
            r == bucket_expired(b, self.config, now_ms),
    {
        let window: u128 = (self.config.window_secs as u128) * 1000;
        (now_ms as u128) > (b.last_refill_ms as u128) + 10 * window
    }
}

/// Rate limit statistics.
#[derive(Debug, Clone, Copy, PartialEq, Eq, Structural)]
pub struct RateLimitStats {
    pub total_requests: u64,
    pub active_buckets: usize,
}

/// Checks are partitioned per key: a check for one identifier leaves every
/// other identifier's bucket exactly as it was, created or not.
pub proof fn lemma_checks_are_per_key(
    pre: Map<Seq<char>, TokenBucket>,
    post: Map<Seq<char>, TokenBucket>,
    key: Seq<char>,
    b: TokenBucket,
)
    requires
        post == pre.insert(key, b),
    ensures
        forall|k: Seq<char>|
            k != key ==> (#[trigger] post.dom().contains(k) <==> pre.dom().contains(k)),
        forall|k: Seq<char>|
            k != key && pre.dom().contains(k) ==> #[trigger] post[k] == pre[k],
{
}

/// How many of a sequence of checks at the given instants are admitted,
/// starting from bucket `b`.
pub open spec fn admitted_count(b: TokenBucket, cfg: RateLimitConfig, times: Seq<u64>) -> int
    decreases times.len(),
{
    if times.len() == 0 {
        0
    } else {
        (if check_admits(b, cfg, times[0]) {
            1int
        } else {
            0int
        }) + admitted_count(bucket_after_check(b, cfg, times[0]), cfg, times.drop_first())
    }
}

/// The core admission bound: over any sequence of checks that all happen
/// by instant `t_end`, the tokens spent never exceed the tokens initially
/// present plus the tokens that can refill by `t_end`.
pub proof fn lemma_admissions_bounded(
    b: TokenBucket,
    cfg: RateLimitConfig,
    times: Seq<u64>,
    t_end: int,
)
    requires
        rate_limit_config_wf(cfg),
        bucket_wf(b, cfg),
        b.last_refill_ms <= t_end,
        forall|i: int| 0 <= i < times.len() ==> times[i] <= t_end,
    ensures
        admitted_count(b, cfg, times) * window_ms(cfg) <= b.tokens_scaled + (t_end
            - b.last_refill_ms) * cfg.requests_per_window,
    decreases times.len(),
{
    let wm = window_ms(cfg);
    let rate = cfg.requests_per_window as int;
    if times.len() == 0 {
        assert((t_end - b.last_refill_ms) * rate >= 0) by (nonlinear_arith)
            requires
                t_end - b.last_refill_ms >= 0,
                rate >= 0,
        ;
    } else {
        let t0 = times[0];
        let r = spec_refill(b, cfg, t0);
        let b1 = bucket_after_check(b, cfg, t0);
        lemma_bucket_bounds(b, cfg, t0);
        lemma_admissions_bounded(b1, cfg, times.drop_first(), t_end);
        let rest = admitted_count(b1, cfg, times.drop_first());
        // The potential `tokens + (t_end - last) * rate` falls by one
        // token's worth on every admission and never rises.
        if t0 > b.last_refill_ms {
            assert(r.last_refill_ms == t0);
            assert(r.tokens_scaled <= b.tokens_scaled + (t0 - b.last_refill_ms) * rate);
            assert((t_end - b.last_refill_ms) * rate == (t0 - b.last_refill_ms) * rate + (t_end
                - t0) * rate) by (nonlinear_arith);
        } else {
            assert(r == b);
        }
        assert(b1.tokens_scaled + (t_end - b1.last_refill_ms) * rate <= b.tokens_scaled + (t_end
            - b.last_refill_ms) * rate - if check_admits(b, cfg, t0) {
            wm
        } else {
            0int
        });
        if check_admits(b, cfg, t0) {
            assert(admitted_count(b, cfg, times) == 1 + rest);
            assert((1 + rest) * wm == wm + rest * wm) by (nonlinear_arith);
        } else {
            assert(admitted_count(b, cfg, times) == rest);
        }
    }
}

/// Within any window of length `w` milliseconds starting no earlier than
/// the bucket's last refill, the number of admissions never exceeds the
/// burst capacity plus the steady-rate allowance
/// `floor(w * requests_per_window / window_ms)`.
pub proof fn lemma_rate_bound(b: TokenBucket, cfg: RateLimitConfig, times: Seq<u64>, w: int)
    requires
        rate_limit_config_wf(cfg),
        bucket_wf(b, cfg),
        w >= 0,
        forall|i: int| 0 <= i < times.len() ==> times[i] <= b.last_refill_ms + w,
    ensures
        admitted_count(b, cfg, times) <= cfg.burst_size + (w * cfg.requests_per_window)
            / window_ms(cfg),
{
    let wm = window_ms(cfg);
    let rate = cfg.requests_per_window as int;
    let n = admitted_count(b, cfg, times);
    lemma_admissions_bounded(b, cfg, times, b.last_refill_ms + w);
    assert(n * wm <= capacity_scaled(cfg) + w * rate);
    assert(n <= cfg.burst_size + (w * rate) / wm) by (nonlinear_arith)
        requires
            wm >= 1000,
            n * wm <= cfg.burst_size * wm + w * rate,
            w * rate >= 0 || true,
            capacity_scaled(cfg) == cfg.burst_size * wm,
    ;
}

/// The window may start anywhere at or after the bucket's creation: over
/// any sequence of checks inside a window `[t0, t0 + w]`, admissions
/// never exceed the burst capacity plus the steady-rate allowance
/// `floor(w * requests_per_window / window_ms)`, whatever the bucket's
/// refill instant was when the window opened.
pub proof fn lemma_rate_bound_any_window(
    b: TokenBucket,
    cfg: RateLimitConfig,
    times: Seq<u64>,
    t0: int,
    w: int,
)
    requires
        rate_limit_config_wf(cfg),
        bucket_wf(b, cfg),
        w >= 0,
        forall|i: int| 0 <= i < times.len() ==> t0 <= #[trigger] times[i] <= t0 + w,
    ensures
        admitted_count(b, cfg, times) <= cfg.burst_size + (w * cfg.requests_per_window)
            / window_ms(cfg),
{
    let wm = window_ms(cfg);
    let rate = cfg.requests_per_window as int;
    let n = admitted_count(b, cfg, times);
    lemma_admissions_any_window(b, cfg, times, t0, t0 + w);
    assert(n * wm <= capacity_scaled(cfg) + w * rate);
    assert(n <= cfg.burst_size + (w * rate) / wm) by (nonlinear_arith)
        requires
            wm >= 1000,
            n * wm <= cfg.burst_size * wm + w * rate,
            capacity_scaled(cfg) == cfg.burst_size * wm,
    ;
}

/// The admission bound over an arbitrary window: tokens spent never
/// exceed a full bucket plus what refills between the window's ends. The
/// first check after the window opens re-anchors the bucket's refill
/// instant inside the window, after which the anchored bound applies.
proof fn lemma_admissions_any_window(
    b: TokenBucket,
    cfg: RateLimitConfig,
    times: Seq<u64>,
    t0: int,
    t_end: int,
)
    requires
        rate_limit_config_wf(cfg),
        bucket_wf(b, cfg),
        t0 <= t_end,
        forall|i: int| 0 <= i < times.len() ==> t0 <= #[trigger] times[i] <= t_end,
    ensures
        admitted_count(b, cfg, times) * window_ms(cfg) <= capacity_scaled(cfg) + (t_end - t0)
            * cfg.requests_per_window,
    decreases times.len(),
{
    let wm = window_ms(cfg);
    let rate = cfg.requests_per_window as int;
    if times.len() == 0 {
        assert((t_end - t0) * rate >= 0) by (nonlinear_arith)
            requires
                t_end - t0 >= 0,
                rate >= 0,
        ;
        assert(capacity_scaled(cfg) >= 0) by (nonlinear_arith)
            requires
                cfg.burst_size >= 1,
                wm >= 1000,
                capacity_scaled(cfg) == cfg.burst_size * wm,
        ;
    } else if b.last_refill_ms >= t0 {
        if b.last_refill_ms <= t_end {
            lemma_admissions_bounded(b, cfg, times, t_end);
            assert((t_end - b.last_refill_ms) * rate <= (t_end - t0) * rate)
                by (nonlinear_arith)
                requires
                    b.last_refill_ms >= t0,
                    rate >= 0,
            ;
        } else {
            // Every check happens before the refill instant, so nothing
            // refills and the bucket's own tokens are the whole budget.
            lemma_admissions_bounded(b, cfg, times, b.last_refill_ms as int);
            assert((t_end - t0) * rate >= 0) by (nonlinear_arith)
                requires
                    t_end >= t0,
                    rate >= 0,
            ;
        }
    } else {
        let t1 = times[0];
        let r = spec_refill(b, cfg, t1);
        let b1 = bucket_after_check(b, cfg, t1);
        lemma_bucket_bounds(b, cfg, t1);
        assert(t1 > b.last_refill_ms);
        assert(r.last_refill_ms == t1 && b1.last_refill_ms == t1);
        lemma_admissions_bounded(b1, cfg, times.drop_first(), t_end);
        let rest = admitted_count(b1, cfg, times.drop_first());
        let hit: int = if check_admits(b, cfg, t1) {
            1
        } else {
            0
        };
        assert(rest * wm <= b1.tokens_scaled + (t_end - t1) * rate);
        assert(hit * wm + b1.tokens_scaled <= capacity_scaled(cfg));
        assert((t_end - t1) * rate <= (t_end - t0) * rate) by (nonlinear_arith)
            requires
                t1 >= t0,
                rate >= 0,
        ;
        assert((hit + rest) * wm == hit * wm + rest * wm) by (nonlinear_arith);
        assert(admitted_count(b, cfg, times) == hit + rest);
    }
}

/// With no time passing (every check at or before the bucket's refill
/// instant), a bucket holding `m` whole tokens admits exactly the first
/// `m` checks: the order-independent burst law.
pub proof fn lemma_burst_exact(b: TokenBucket, cfg: RateLimitConfig, times: Seq<u64>, m: int)
    requires
        rate_limit_config_wf(cfg),
        bucket_wf(b, cfg),
        b.tokens_scaled == m * window_ms(cfg),
        0 <= m,
        forall|i: int| 0 <= i < times.len() ==> times[i] <= b.last_refill_ms,
    ensures
        admitted_count(b, cfg, times) == if times.len() <= m {
            times.len() as int
        } else {
            m
        },
    decreases times.len(),
{
    let wm = window_ms(cfg);
    if times.len() > 0 {
        let t0 = times[0];
        assert(spec_refill(b, cfg, t0) == b);
        let b1 = bucket_after_check(b, cfg, t0);
        if m >= 1 {
            assert(m * wm >= wm) by (nonlinear_arith)
                requires
                    m >= 1,
                    wm >= 1,
            ;
            assert(check_admits(b, cfg, t0));
            assert(b1.tokens_scaled == m * wm - wm);
            assert(m * wm - wm == (m - 1) * wm) by (nonlinear_arith);
            lemma_burst_exact(b1, cfg, times.drop_first(), m - 1);
        } else {
            assert(b.tokens_scaled == 0) by (nonlinear_arith)
                requires
                    m == 0,
                    b.tokens_scaled == m * wm,
            ;
            assert(!check_admits(b, cfg, t0));
            assert(b1 == b);
            lemma_burst_exact(b1, cfg, times.drop_first(), m);
        }
    }
}

} // verus!
