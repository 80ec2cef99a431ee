use vstd::prelude::*;
use std::time::Instant;

verus! {

#[verifier::external_type_specification]
#[verifier::external_body]
pub struct ExInstant(std::time::Instant);

/// Reads the monotonic clock through `std::time::Instant::now`.
/// Nothing is stated of the result: it is the current time.
#[verifier::external_body]
fn instant_now() -> Instant {
    Instant::now()
}

/// What a rate limiter holds, as seen by contracts.
pub struct RateLimiterView {
    pub tokens: u32,
    pub max_tokens: u32,
    pub refill_rate: u32,
    pub last_refill: Instant,
}

/// A token bucket: at most `max_tokens` tokens, refilled at `refill_rate` tokens per second.
pub struct RateLimiter {
    tokens: u32,
    max_tokens: u32,
    refill_rate: u32,
    last_refill: Instant,
}

impl View for RateLimiter {
    type V = RateLimiterView;

    closed spec fn view(&self) -> RateLimiterView {
        RateLimiterView {
            tokens: self.tokens,
            max_tokens: self.max_tokens,
            refill_rate: self.refill_rate,
            last_refill: self.last_refill,
        }
    }
}

/// The token count after adding `added` tokens to `tokens`, capped at `max_tokens`.
pub open spec fn capped_tokens(tokens: u32, added: u32, max_tokens: u32) -> u32 {
    if tokens + added <= max_tokens {
        (tokens + added) as u32
    } else {
        max_tokens
    }
}

/// The smaller of two integers.
pub open spec fn min(a: int, b: int) -> int {
    if a <= b {
        a
    } else {
        b
    }
}

/// Law: a refill never lowers the token count and never lifts it above the capacity.
pub proof fn lemma_refill_within_capacity(tokens: u32, added: u32, max_tokens: u32)
    requires
        tokens <= max_tokens,
    ensures
        tokens <= capped_tokens(tokens, added, max_tokens) <= max_tokens,
{
}

/// Law: a refill adds every earned token, up to the capacity: the count becomes the
/// smaller of the old count plus the added tokens and the capacity.
pub proof fn lemma_refill_adds_all_earned(tokens: u32, added: u32, max_tokens: u32)
    ensures
        capped_tokens(tokens, added, max_tokens) == min(tokens + added, max_tokens as int),
        tokens + added <= max_tokens ==> capped_tokens(tokens, added, max_tokens) == tokens + added,
        tokens + added > max_tokens ==> capped_tokens(tokens, added, max_tokens) == max_tokens,
{
}

/// Law: a larger refill never leaves fewer tokens than a smaller one.
pub proof fn lemma_refill_monotonic(tokens: u32, a: u32, b: u32, max_tokens: u32)
    requires
        a <= b,
    ensures
        capped_tokens(tokens, a, max_tokens) <= capped_tokens(tokens, b, max_tokens),
{
}

impl RateLimiter {
    #[verifier::type_invariant]
    spec fn never_above_capacity(&self) -> bool {
        self.tokens <= self.max_tokens
    }

    /// A full bucket of `max_tokens` tokens, last refilled now.
    pub fn new(max_tokens: u32, refill_rate: u32) -> (limiter: RateLimiter)
        ensures
            limiter@.tokens == max_tokens,
            limiter@.max_tokens == max_tokens,
            limiter@.refill_rate == refill_rate,
    {
        RateLimiter { tokens: max_tokens, max_tokens, refill_rate, last_refill: instant_now() }
    }

    /// Tokens available now.
    pub fn tokens(&self) -> (t: u32)
        ensures
            t == self@.tokens,
            t <= self@.max_tokens,
    {
        proof {
            use_type_invariant(self);
        }
        self.tokens
    }

    /// Capacity of the bucket.
    pub fn max_tokens(&self) -> (m: u32)
        ensures
            m == self@.max_tokens,
    {
        self.max_tokens
    }

    /// Tokens added per second.
    pub fn refill_rate(&self) -> (r: u32)
        ensures
            r == self@.refill_rate,
    {
        self.refill_rate
    }

    /// When tokens were last added.
    pub fn last_refill(&self) -> (at: Instant)
        ensures
            at == self@.last_refill,
    {
        self.last_refill
    }

    /// Adds `new_tokens` tokens (the ones earned since the last refill), capped at the
    /// capacity, and records `now` as the last refill; with no new token nothing changes.
    pub fn refill(&mut self, new_tokens: u32, now: Instant)
        ensures
            final(self)@.max_tokens == old(self)@.max_tokens,
            final(self)@.refill_rate == old(self)@.refill_rate,
            final(self)@.tokens <= final(self)@.max_tokens,
            new_tokens > 0 ==> final(self)@.tokens == capped_tokens(old(self)@.tokens, new_tokens, old(self)@.max_tokens)
                && final(self)@.last_refill == now,
            new_tokens > 0 && old(self)@.tokens + new_tokens <= old(self)@.max_tokens
                ==> final(self)@.tokens == old(self)@.tokens + new_tokens,
            new_tokens > 0 && old(self)@.tokens + new_tokens > old(self)@.max_tokens
                ==> final(self)@.tokens == old(self)@.max_tokens,
            new_tokens == 0 ==> final(self)@ == old(self)@,
    {
        proof {
            use_type_invariant(&*self);
        }
        if new_tokens > 0 {
            let sum: u64 = self.tokens as u64 + new_tokens as u64;
            let capped: u64 = if sum < self.max_tokens as u64 { sum } else { self.max_tokens as u64 };
            self.tokens = capped as u32;
            self.last_refill = now;
        }
    }

    /// One step of acquiring a token: refills with `new_tokens` at `now`, then takes one
    /// token if there is one. Returns whether a token was taken.
    pub fn try_acquire(&mut self, new_tokens: u32, now: Instant) -> (acquired: bool)
        ensures
            final(self)@.max_tokens == old(self)@.max_tokens,
            final(self)@.refill_rate == old(self)@.refill_rate,
            final(self)@.tokens <= final(self)@.max_tokens,
            ({
                let refilled = if new_tokens > 0 {
                    capped_tokens(old(self)@.tokens, new_tokens, old(self)@.max_tokens)
                } else {
                    old(self)@.tokens
                };
                &&& acquired == (refilled > 0)
                &&& final(self)@.tokens == if acquired { refilled - 1 } else { refilled as int }
            }),
            final(self)@.last_refill == if new_tokens > 0 { now } else { old(self)@.last_refill },
            acquired ==> final(self)@.tokens + 1 == if new_tokens > 0 {
                min(old(self)@.tokens + new_tokens, old(self)@.max_tokens as int)
            } else {
                old(self)@.tokens as int
            },
            !acquired ==> final(self)@.tokens == 0 && old(self)@.tokens == 0
                && (new_tokens == 0 || old(self)@.max_tokens == 0),
    {
        proof {
            use_type_invariant(&*self);
        }
        self.refill(new_tokens, now);
        proof {
            use_type_invariant(&*self);
        }
        if self.tokens > 0 {
            self.tokens = self.tokens - 1;
            true
        } else {
            false
        }
    }
}

} // verus!
