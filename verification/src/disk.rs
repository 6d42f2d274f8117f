//! Disk usage accounting and the admission controller.
//!
//! The monitor holds a cached reading of the managed tree's size with a
//! time-to-live; the surrounding binary performs the actual traversal and
//! hands the byte counts in. Admission of new downloads is governed by a pair
//! of thresholds with hysteresis: pausing at the upper one, resuming only at
//! the strictly lower one, so admission cannot oscillate.

use vstd::prelude::*;

verus! {

/// Bytes on disk under the managed root, by artifact class.
#[derive(Debug, Clone, Copy, PartialEq, Eq, Structural)]
pub struct DiskUsage {
    pub total_bytes: u64,
    pub videos_bytes: u64,
    pub audio_bytes: u64,
    pub transcripts_bytes: u64,
    pub tokens_bytes: u64,
    pub analysis_bytes: u64,
}

/// A usage report for the operator.
#[derive(Debug, Clone, Copy, PartialEq, Eq, Structural)]
pub struct SpaceBreakdown {
    pub usage: DiskUsage,
    /// Whole percent of the hard limit in use.
    pub used_percent: u64,
    /// Whether new downloads may start right now.
    pub can_download: bool,
}

/// Measures and caches disk usage of the managed root; admission queries go
/// through the thresholds fixed at construction.
#[derive(Debug, Clone, Copy)]
pub struct DiskMonitor {
    hard_limit_bytes: u64,
    pause_threshold_bytes: u64,
    resume_threshold_bytes: u64,
    cache_ttl_seconds: i64,
    cached: Option<(DiskUsage, i64)>,
}

impl DiskMonitor {
    /// The informational hard limit.
    pub closed spec fn hard_limit(&self) -> u64 {
        self.hard_limit_bytes
    }

    /// Usage at or above this pauses new downloads.
    pub closed spec fn pause_threshold(&self) -> u64 {
        self.pause_threshold_bytes
    }

    /// Downloads resume only at or below this.
    pub closed spec fn resume_threshold(&self) -> u64 {
        self.resume_threshold_bytes
    }

    /// How long a reading stays fresh, in seconds.
    pub closed spec fn cache_ttl(&self) -> i64 {
        self.cache_ttl_seconds
    }

    /// The cached reading and the second it was taken, if any.
    pub closed spec fn cached(&self) -> Option<(DiskUsage, i64)> {
        self.cached
    }

    /// The thresholds are sane: resume strictly below pause, and a positive
    /// hard limit.
    pub open spec fn wf(&self) -> bool {
        &&& self.resume_threshold() < self.pause_threshold()
        &&& 0 < self.hard_limit()
    }

    /// What a usage query reports at second `now`: the cached reading while
    /// it is fresh, nothing once it is stale or invalidated.
    pub open spec fn spec_usage_at(&self, now: i64) -> Option<DiskUsage> {
        match self.cached() {
            Some((u, t)) => if t <= now && now - t < self.cache_ttl() {
                Some(u)
            } else {
                None
            },
            None => None,
        }
    }

    /// A monitor with the given thresholds and cache time-to-live, and no
    /// reading yet. Refused unless the resume threshold lies strictly below
    /// the pause threshold and the hard limit is positive.
    pub fn new(
        hard_limit_bytes: u64,
        pause_threshold_bytes: u64,
        resume_threshold_bytes: u64,
        cache_ttl_seconds: i64,
    ) -> (r: Option<DiskMonitor>)
        ensures
            r is Some <==> resume_threshold_bytes < pause_threshold_bytes && 0 < hard_limit_bytes,
            r matches Some(m) ==> {
                &&& m.wf()
                &&& m.hard_limit() == hard_limit_bytes
                &&& m.pause_threshold() == pause_threshold_bytes
                &&& m.resume_threshold() == resume_threshold_bytes
                &&& m.cache_ttl() == cache_ttl_seconds
                &&& m.cached() is None
            },
    {
        if resume_threshold_bytes < pause_threshold_bytes && 0 < hard_limit_bytes {
            Some(
                DiskMonitor {
                    hard_limit_bytes,
                    pause_threshold_bytes,
                    resume_threshold_bytes,
                    cache_ttl_seconds,
                    cached: None,
                },
            )
        } else {
            None
        }
    }

    /// The cached reading, while fresh at second `now`. `None` obliges the
    /// caller to measure the tree and feed the result to `record_usage`.
    pub fn current_usage(&self, now: i64) -> (r: Option<DiskUsage>)
        ensures
            r == self.spec_usage_at(now),
    {
        match self.cached {
            Some((u, t)) => {
                if t <= now && (now as i128) - (t as i128) < (self.cache_ttl_seconds as i128) {
                    Some(u)
                } else {
                    None
                }
            },
            None => None,
        }
    }

    /// Stores a fresh measurement taken at second `now`.
    pub fn record_usage(&mut self, usage: DiskUsage, now: i64)
        ensures
            final(self).cached() == Some((usage, now)),
            final(self).hard_limit() == old(self).hard_limit(),
            final(self).pause_threshold() == old(self).pause_threshold(),
            final(self).resume_threshold() == old(self).resume_threshold(),
            final(self).cache_ttl() == old(self).cache_ttl(),
    {
        self.cached = Some((usage, now));
    }

    /// Drops the cached reading, so the next usage query reflects the disk
    /// as it is after the caller's mutations.
    pub fn invalidate_cache(&mut self)
        ensures
            final(self).cached() is None,
            final(self).hard_limit() == old(self).hard_limit(),
            final(self).pause_threshold() == old(self).pause_threshold(),
            final(self).resume_threshold() == old(self).resume_threshold(),
            final(self).cache_ttl() == old(self).cache_ttl(),
    {
        self.cached = None;
    }

    /// Whether new downloads must pause: usage at or above the pause
    /// threshold.
    pub fn should_pause_downloads(&self, usage: &DiskUsage) -> (r: bool)
        ensures
            r == (usage.total_bytes >= self.pause_threshold()),
    {
        usage.total_bytes >= self.pause_threshold_bytes
    }

    /// Whether paused downloads may resume: usage at or below the resume
    /// threshold.
    pub fn can_resume_downloads(&self, usage: &DiskUsage) -> (r: bool)
        ensures
            r == (usage.total_bytes <= self.resume_threshold()),
    {
        usage.total_bytes <= self.resume_threshold_bytes
    }

    /// A report over the given reading: whole percent of the hard limit in
    /// use (saturating at `u64::MAX`) and whether downloads may start.
    pub fn get_breakdown(&self, usage: DiskUsage) -> (r: SpaceBreakdown)
        requires
            self.wf(),
        ensures
            r.usage == usage,
            r.used_percent as int == vstd::math::min(
                usage.total_bytes as int * 100 / self.hard_limit() as int,
                u64::MAX as int,
            ),
            r.can_download == (usage.total_bytes < self.pause_threshold()),
    {
        let pct128: u128 = (usage.total_bytes as u128) * 100 / (self.hard_limit_bytes as u128);
        let used_percent: u64 = if pct128 > u64::MAX as u128 {
            u64::MAX
        } else {
            pct128 as u64
        };
        SpaceBreakdown {
            usage,
            used_percent,
            can_download: usage.total_bytes < self.pause_threshold_bytes,
        }
    }
}

/// Law: once the cache is invalidated, no earlier reading can be reported:
/// every later usage query answers `None` until a new measurement is
/// recorded, and after recording one taken at `t`, a query at any `now`
/// within the time-to-live reports exactly that measurement.
pub proof fn lemma_invalidate_then_fresh(
    invalidated: DiskMonitor,
    recorded: DiskMonitor,
    u: DiskUsage,
    t: i64,
    now: i64,
)
    requires
        invalidated.cached() is None,
        recorded.cached() == Some((u, t)),
        t <= now,
        now - t < recorded.cache_ttl(),
    ensures
        forall|q: i64| invalidated.spec_usage_at(q) is None,
        recorded.spec_usage_at(now) == Some(u),
{
}

/// The admission controller for the download stage: paused while the disk is too
/// full, with hysteresis between the two thresholds.
#[derive(Debug, Clone, Copy)]
pub struct AdmissionController {
    pause_threshold_bytes: u64,
    resume_threshold_bytes: u64,
    paused: bool,
}

/// The admission state after one usage reading: a running controller pauses at the
/// pause threshold; a paused controller reopens only at or below the resume
/// threshold.
pub open spec fn next_paused(paused: bool, total_bytes: u64, pause_t: u64, resume_t: u64) -> bool {
    if paused {
        total_bytes > resume_t
    } else {
        total_bytes >= pause_t
    }
}

/// The admission state after a whole sequence of readings.
pub open spec fn run_admission(paused: bool, readings: Seq<u64>, pause_t: u64, resume_t: u64) -> bool
    decreases readings.len(),
{
    if readings.len() == 0 {
        paused
    } else {
        run_admission(
            next_paused(paused, readings[0], pause_t, resume_t),
            readings.drop_first(),
            pause_t,
            resume_t,
        )
    }
}

impl AdmissionController {
    /// Usage at or above this pauses admission.
    pub closed spec fn pause_threshold(&self) -> u64 {
        self.pause_threshold_bytes
    }

    /// Admission resumes only at or below this.
    pub closed spec fn resume_threshold(&self) -> u64 {
        self.resume_threshold_bytes
    }

    /// Whether admission is currently paused.
    pub closed spec fn paused(&self) -> bool {
        self.paused
    }

    /// Resume lies strictly below pause.
    pub open spec fn wf(&self) -> bool {
        self.resume_threshold() < self.pause_threshold()
    }

    /// A controller that is initially open. Refused unless the resume threshold
    /// lies strictly below the pause threshold.
    pub fn new(pause_threshold_bytes: u64, resume_threshold_bytes: u64) -> (r: Option<
        AdmissionController,
    >)
        ensures
            r is Some <==> resume_threshold_bytes < pause_threshold_bytes,
            r matches Some(c) ==> {
                &&& c.wf()
                &&& c.pause_threshold() == pause_threshold_bytes
                &&& c.resume_threshold() == resume_threshold_bytes
                &&& !c.paused()
            },
    {
        if resume_threshold_bytes < pause_threshold_bytes {
            Some(
                AdmissionController {
                    pause_threshold_bytes,
                    resume_threshold_bytes,
                    paused: false,
                },
            )
        } else {
            None
        }
    }

    /// Feeds one usage reading into the controller.
    pub fn observe(&mut self, usage: &DiskUsage)
        ensures
            final(self).paused() == next_paused(
                old(self).paused(),
                usage.total_bytes,
                old(self).pause_threshold(),
                old(self).resume_threshold(),
            ),
            final(self).pause_threshold() == old(self).pause_threshold(),
            final(self).resume_threshold() == old(self).resume_threshold(),
    {
        if self.paused {
            self.paused = usage.total_bytes > self.resume_threshold_bytes;
        } else {
            self.paused = usage.total_bytes >= self.pause_threshold_bytes;
        }
    }

    /// Whether a worker may start a new download now.
    pub fn may_start(&self) -> (r: bool)
        ensures
            r == !self.paused(),
    {
        !self.paused
    }
}

/// Law: hysteresis. Once the pause threshold is crossed, admission is closed,
/// and as long as every later reading stays above the resume threshold it
/// remains closed — no new download is admitted until usage falls to the
/// resume threshold or below.
pub proof fn lemma_admission_hysteresis(readings: Seq<u64>, pause_t: u64, resume_t: u64)
    requires
        resume_t < pause_t,
        forall|i: int| 0 <= i < readings.len() ==> #[trigger] readings[i] > resume_t,
    ensures
        run_admission(true, readings, pause_t, resume_t),
    decreases readings.len(),
{
    if readings.len() > 0 {
        assert(readings[0] > resume_t);
        assert forall|i: int|
            0 <= i < readings.drop_first().len() implies #[trigger] readings.drop_first()[i]
            > resume_t by {
            assert(readings.drop_first()[i] == readings[i + 1]);
        }
        lemma_admission_hysteresis(readings.drop_first(), pause_t, resume_t);
    }
}

/// Law: a reading at the pause threshold or above closes an open controller, and
/// one at the resume threshold or below reopens a closed controller.
pub proof fn lemma_admission_crossings(total: u64, pause_t: u64, resume_t: u64)
    ensures
        total >= pause_t ==> next_paused(false, total, pause_t, resume_t),
        total <= resume_t ==> !next_paused(true, total, pause_t, resume_t),
{
}

} // verus!
