//! Scraper bookkeeping: session statistics and per-episode job creation.
//!
//! The scraper discovers series from the catalog and enqueues one job per
//! episode; the jobs it builds and the totals it reports are fixed here.

use vstd::prelude::*;
use vstd::string::StringExecFns;

use crate::model::NewJob;

verus! {

/// Totals of one scraping session.
#[derive(Debug, Clone, Copy, PartialEq, Eq, Structural)]
pub struct ScraperStats {
    pub total_categories: usize,
    pub total_anime_discovered: usize,
    pub unique_anime: usize,
    pub anime_saved: usize,
    pub jobs_created: usize,
    pub errors: usize,
}

impl Default for ScraperStats {
    /// All totals at zero.
    fn default() -> (r: Self)
        ensures
            r.total_categories == 0,
            r.total_anime_discovered == 0,
            r.unique_anime == 0,
            r.anime_saved == 0,
            r.jobs_created == 0,
            r.errors == 0,
    {
        ScraperStats {
            total_categories: 0,
            total_anime_discovered: 0,
            unique_anime: 0,
            anime_saved: 0,
            jobs_created: 0,
            errors: 0,
        }
    }
}

/// One new job for every episode of a series, episodes numbered from one,
/// at the default priority.
pub fn episode_jobs(anime_id: i64, mal_id: u32, anime_title: &str, episodes: u32) -> (r: Vec<
    NewJob,
>)
    ensures
        r@.len() == episodes,
        forall|i: int|
            0 <= i < episodes ==> {
                &&& (#[trigger] r@[i]).anime_id == anime_id
                &&& r@[i].mal_id == mal_id
                &&& r@[i].anime_title@ == anime_title@
                &&& r@[i].episode == i + 1
                &&& r@[i].priority == 0
            },
{
    let mut jobs: Vec<NewJob> = Vec::new();
    let mut ep: u32 = 0;
    while ep < episodes
        invariant
            ep <= episodes,
            jobs@.len() == ep,
            forall|i: int|
                0 <= i < ep ==> {
                    &&& (#[trigger] jobs@[i]).anime_id == anime_id
                    &&& jobs@[i].mal_id == mal_id
                    &&& jobs@[i].anime_title@ == anime_title@
                    &&& jobs@[i].episode == i + 1
                    &&& jobs@[i].priority == 0
                },
        decreases episodes - ep,
    {
        ep = ep + 1;
        jobs.push(
            NewJob {
                anime_id,
                mal_id,
                anime_title: <String as StringExecFns>::from_str(anime_title),
                episode: ep,
                priority: 0,
            },
        );
    }
    jobs
}

} // verus!
