//! Rate limiter bookkeeping: dual per-second and per-minute constraints.
//!
//! The limiter decides how long the caller must sleep before the next
//! request; the sleeping itself, and the clock, belong to the surrounding
//! binary, which hands in timestamps in milliseconds.

use vstd::prelude::*;

verus! {

/// Rate limiter with per-second and per-minute constraints.
#[derive(Debug)]
pub struct RateLimiter {
    /// Requests per second, in thousandths.
    max_per_second_milli: u64,
    max_per_minute: u32,
    /// When the last request went out, in milliseconds.
    last_request: Option<u64>,
    /// Send times within the last minute, oldest first, in milliseconds.
    recent_requests: Vec<u64>,
}

/// The send times that have not yet aged out of the one-minute window at
/// `now`.
pub open spec fn recent_within(times: Seq<u64>, now: u64) -> Seq<u64> {
    times.filter(|t: u64| t >= now || now - t < 60_000)
}

impl RateLimiter {
    /// Requests per second, in thousandths.
    pub closed spec fn per_second_milli(&self) -> u64 {
        self.max_per_second_milli
    }

    /// The per-minute cap.
    pub closed spec fn per_minute(&self) -> u32 {
        self.max_per_minute
    }

    /// The recorded send time of the last request.
    pub closed spec fn last(&self) -> Option<u64> {
        self.last_request
    }

    /// The recorded send times.
    pub closed spec fn recent(&self) -> Seq<u64> {
        self.recent_requests@
    }

    /// A fresh limiter with the given limits and no recorded requests.
    pub fn new(max_per_second_milli: u64, max_per_minute: u32) -> (r: RateLimiter)
        ensures
            r.per_second_milli() == max_per_second_milli,
            r.per_minute() == max_per_minute,
            r.last() is None,
            r.recent() == Seq::<u64>::empty(),
    {
        RateLimiter {
            max_per_second_milli,
            max_per_minute,
            last_request: None,
            recent_requests: Vec::new(),
        }
    }

    /// Drops recorded send times older than one minute.
    fn prune(&mut self, now_ms: u64)
        ensures
            final(self).recent() == recent_within(old(self).recent(), now_ms),
            final(self).per_second_milli() == old(self).per_second_milli(),
            final(self).per_minute() == old(self).per_minute(),
            final(self).last() == old(self).last(),
    {
        let n = self.recent_requests.len();
        let mut kept: Vec<u64> = Vec::new();
        let mut i: usize = 0;
        proof {
            assert(self.recent_requests@.subrange(0, 0) =~= Seq::<u64>::empty());
            assert(Seq::<u64>::empty().filter(|t: u64| t >= now_ms || now_ms - t < 60_000)
                =~= Seq::<u64>::empty());
        }
        while i < n
            invariant
                n == self.recent_requests@.len(),
                i <= n,
                self.recent_requests@ == old(self).recent_requests@,
                self.max_per_second_milli == old(self).max_per_second_milli,
                self.max_per_minute == old(self).max_per_minute,
                self.last_request == old(self).last_request,
                kept@ == self.recent_requests@.subrange(0, i as int).filter(
                    |t: u64| t >= now_ms || now_ms - t < 60_000,
                ),
            decreases n - i,
        {
            proof {
                crate::text::lemma_filter_take_step(
                    self.recent_requests@,
                    |t: u64| t >= now_ms || now_ms - t < 60_000,
                    i as int,
                );
            }
            let t = self.recent_requests[i];
            if t >= now_ms || now_ms - t < 60_000 {
                kept.push(t);
            }
            i = i + 1;
        }
        proof {
            assert(self.recent_requests@.subrange(0, n as int) =~= self.recent_requests@);
        }
        self.recent_requests = kept;
    }

    /// How many milliseconds the caller must still wait before sending, and
    /// the bookkeeping for the send at `now_ms + wait`: zero when both
    /// limits allow an immediate request; otherwise the larger of the
    /// per-minute wait (until the oldest recorded request ages out of the
    /// window) and the per-second gap since the last request.
    pub fn acquire_wait(&mut self, now_ms: u64) -> (wait: u64)
        requires
            old(self).per_second_milli() > 0,
            now_ms <= u64::MAX - 1_000_000,
        ensures
            final(self).per_second_milli() == old(self).per_second_milli(),
            final(self).per_minute() == old(self).per_minute(),
            wait == spec_wait(
                recent_within(old(self).recent(), now_ms),
                old(self).last(),
                now_ms,
                old(self).per_second_milli(),
                old(self).per_minute(),
            ),
            final(self).last() == Some((now_ms + wait) as u64),
            final(self).recent() == recent_within(old(self).recent(), now_ms).push(
                (now_ms + wait) as u64,
            ),
    {
        self.prune(now_ms);
        let minute_wait: u64 = if self.recent_requests.len() >= self.max_per_minute as usize
            && self.recent_requests.len() > 0 {
            let oldest = self.recent_requests[0];
            if oldest <= now_ms && now_ms - oldest < 60_000 {
                60_000 - (now_ms - oldest)
            } else {
                0
            }
        } else {
            0
        };
        let second_wait: u64 = match self.last_request {
            Some(last) => {
                let min_interval = 1_000_000 / self.max_per_second_milli;
                if last <= now_ms && now_ms - last < min_interval {
                    min_interval - (now_ms - last)
                } else {
                    0
                }
            },
            None => 0,
        };
        let wait = if minute_wait >= second_wait {
            minute_wait
        } else {
            second_wait
        };
        proof {
            assert(minute_wait <= 60_000);
            assert(1_000_000 as int / self.max_per_second_milli as int <= 1_000_000);
            assert(second_wait <= 1_000_000);
        }
        let send_at = now_ms + wait;
        self.last_request = Some(send_at);
        self.recent_requests.push(send_at);
        wait
    }

    /// The number of requests recorded in the last minute.
    pub fn current_minute_count(&mut self, now_ms: u64) -> (r: usize)
        ensures
            r == recent_within(old(self).recent(), now_ms).len(),
            final(self).recent() == recent_within(old(self).recent(), now_ms),
            final(self).per_second_milli() == old(self).per_second_milli(),
            final(self).per_minute() == old(self).per_minute(),
            final(self).last() == old(self).last(),
    {
        self.prune(now_ms);
        self.recent_requests.len()
    }
}

/// The wait the limiter imposes: until the oldest request leaves the
/// one-minute window when the window is full, and at least the minimum
/// inter-request gap since the last send.
pub open spec fn spec_wait(
    recent: Seq<u64>,
    last: Option<u64>,
    now_ms: u64,
    per_second_milli: u64,
    per_minute: u32,
) -> u64 {
    let minute_wait: u64 = if recent.len() >= per_minute && recent.len() > 0 && recent[0] <= now_ms
        && now_ms - recent[0] < 60_000 {
        (60_000 - (now_ms - recent[0])) as u64
    } else {
        0
    };
    let second_wait: u64 = match last {
        Some(l) => if l <= now_ms && now_ms - l < 1_000_000 as int / per_second_milli as int {
            (1_000_000 as int / per_second_milli as int - (now_ms - l)) as u64
        } else {
            0
        },
        None => 0,
    };
    if minute_wait >= second_wait {
        minute_wait
    } else {
        second_wait
    }
}

} // verus!
