//! Token-bucket rate limiter with two independent buckets (bytes and
//! operations). When a consumption request exceeds what a bucket holds, the
//! limiter goes blocked; in the real device a one-shot timer then makes its
//! file descriptor readable, and the wake-up handler refills the buckets and
//! clears the blocked state.

use vstd::prelude::*;

verus! {

/// One token bucket: the tokens currently held and the capacity a wake-up
/// refill restores.
pub struct TokenBucket {
    pub tokens: u64,
    pub capacity: u64,
}

/// Construction parameters for one direction's limiter: bucket sizes for
/// bytes and for operations, each optional.
pub struct RateLimiterConfig {
    pub bytes_size: Option<u64>,
    pub ops_size: Option<u64>,
}

/// A two-bucket limiter plus the blocked latch that mirrors whether its
/// wake-up timer is armed.
pub struct RateLimiter {
    pub bytes: Option<TokenBucket>,
    pub ops: Option<TokenBucket>,
    pub blocked: bool,
}

/// Whether an optional limiter is present and blocked.
pub open spec fn limiter_blocked(l: Option<RateLimiter>) -> bool {
    match l {
        Some(limiter) => limiter.blocked,
        None => false,
    }
}

/// Whether a bucket can yield `amount` tokens (an absent bucket always can).
pub open spec fn bucket_allows(b: Option<TokenBucket>, amount: u64) -> bool {
    match b {
        Some(bucket) => amount <= bucket.tokens,
        None => true,
    }
}

/// Whether a consumption of `bytes` bytes and `ops` operations fits both
/// buckets of `r`.
pub open spec fn consumption_allowed(r: RateLimiter, bytes: u64, ops: u64) -> bool {
    bucket_allows(r.bytes, bytes) && bucket_allows(r.ops, ops)
}

impl RateLimiter {
    /// Builds a limiter from its configuration, with both buckets full.
    pub fn create(config: &RateLimiterConfig) -> (r: RateLimiter)
        ensures
            r.blocked == false,
            r.bytes matches Some(b) <==> config.bytes_size is Some,
            config.bytes_size matches Some(size) ==> r.bytes == Some(
                TokenBucket { tokens: size, capacity: size },
            ),
            r.ops matches Some(b) <==> config.ops_size is Some,
            config.ops_size matches Some(size) ==> r.ops == Some(
                TokenBucket { tokens: size, capacity: size },
            ),
    {
        let bytes = match config.bytes_size {
            Some(size) => Some(TokenBucket { tokens: size, capacity: size }),
            None => None,
        };
        let ops = match config.ops_size {
            Some(size) => Some(TokenBucket { tokens: size, capacity: size }),
            None => None,
        };
        RateLimiter { bytes, ops, blocked: false }
    }

    /// Reports whether the limiter is waiting for its wake-up timer.
    pub fn is_blocked(&self) -> (r: bool)
        ensures
            r == self.blocked,
    {
        self.blocked
    }

    /// Tries to take `bytes` and `ops` tokens. On success both buckets are
    /// debited; otherwise nothing is taken and the limiter latches blocked
    /// (the one-shot timer is armed).
    pub fn consume(&mut self, bytes: u64, ops: u64) -> (ok: bool)
        ensures
            ok == consumption_allowed(*old(self), bytes, ops),
            ok ==> final(self).blocked == old(self).blocked && final(self).ops
                == debit(old(self).ops, ops) && final(self).bytes == debit(
                old(self).bytes,
                bytes,
            ),
            !ok ==> *final(self) == (RateLimiter { blocked: true, ..*old(self) }),
    {
        let bytes_ok = match &self.bytes {
            Some(bucket) => bytes <= bucket.tokens,
            None => true,
        };
        let ops_ok = match &self.ops {
            Some(bucket) => ops <= bucket.tokens,
            None => true,
        };
        if bytes_ok && ops_ok {
            self.bytes = match &self.bytes {
                Some(bucket) => Some(
                    TokenBucket { tokens: bucket.tokens - bytes, capacity: bucket.capacity },
                ),
                None => None,
            };
            self.ops = match &self.ops {
                Some(bucket) => Some(
                    TokenBucket { tokens: bucket.tokens - ops, capacity: bucket.capacity },
                ),
                None => None,
            };
            true
        } else {
            self.blocked = true;
            false
        }
    }

    /// The wake-up handler: the timer fired, the buckets refill to capacity
    /// and the blocked latch clears.
    pub fn event_handler(&mut self)
        ensures
            final(self).blocked == false,
            final(self).bytes == refill(old(self).bytes),
            final(self).ops == refill(old(self).ops),
    {
        self.bytes = match &self.bytes {
            Some(bucket) => Some(TokenBucket { tokens: bucket.capacity, capacity: bucket.capacity }),
            None => None,
        };
        self.ops = match &self.ops {
            Some(bucket) => Some(TokenBucket { tokens: bucket.capacity, capacity: bucket.capacity }),
            None => None,
        };
        self.blocked = false;
    }
}

/// A bucket after yielding `amount` tokens.
pub open spec fn debit(b: Option<TokenBucket>, amount: u64) -> Option<TokenBucket> {
    match b {
        Some(bucket) => Some(
            TokenBucket { tokens: (bucket.tokens - amount) as u64, capacity: bucket.capacity },
        ),
        None => None,
    }
}

/// A bucket refilled to capacity.
pub open spec fn refill(b: Option<TokenBucket>) -> Option<TokenBucket> {
    match b {
        Some(bucket) => Some(TokenBucket { tokens: bucket.capacity, capacity: bucket.capacity }),
        None => None,
    }
}

} // verus!
