use vstd::prelude::*;

use crate::entry::{
    CacheEntry, ComputeError, EntryConfig, EntryView, RefreshOutcome, result_view,
};
use crate::statistics::{Statistics, StatisticsView};

verus! {

/// The artifacts that the store caches.
#[derive(Clone, Copy, Debug, PartialEq, Eq, Structural)]
pub enum Artifact {
    Count,
    Statistics,
}

/// The device count as served, with the time it was computed at.
#[derive(Clone, Copy, Debug)]
pub struct CountCahe {
    pub count: i64,
    pub updated_at: u64,
}

/// The statistics as served, with the time they were computed at.
#[derive(Debug)]
pub struct StatisticsCache {
    pub statistics: Statistics,
    pub updated_at: u64,
}

/// Why the store could not start.
#[derive(Debug)]
pub enum StartError {
    /// The first computation of the device count failed.
    Count(ComputeError),
    /// The first computation of the statistics failed.
    Statistics(ComputeError),
}

pub struct StoreView {
    pub count: EntryView<i64>,
    pub statistics: EntryView<StatisticsView>,
    pub running: bool,
}

/// The process-wide set of cached artifacts: one entry per artifact, fixed
/// when the store starts.
pub struct CacheStore {
    count: CacheEntry<i64>,
    statistics: CacheEntry<Statistics>,
    running: bool,
}

impl View for CacheStore {
    type V = StoreView;

    closed spec fn view(&self) -> StoreView {
        StoreView { count: self.count@, statistics: self.statistics@, running: self.running }
    }
}

impl StoreView {
    /// The refresh token of an artifact's entry is held.
    pub open spec fn refreshing(self, a: Artifact) -> bool {
        match a {
            Artifact::Count => self.count.refreshing,
            Artifact::Statistics => self.statistics.refreshing,
        }
    }

    /// The store with the count entry replaced.
    pub open spec fn with_count(self, e: EntryView<i64>) -> StoreView {
        StoreView { count: e, ..self }
    }

    /// The store with the statistics entry replaced.
    pub open spec fn with_statistics(self, e: EntryView<StatisticsView>) -> StoreView {
        StoreView { statistics: e, ..self }
    }
}

impl CacheStore {
    /// Bootstraps every entry from its first computation, all stamped `now`.
    /// Fails, and yields no store, if any first computation failed.
    pub fn start(
        count_config: EntryConfig,
        statistics_config: EntryConfig,
        count: Result<i64, ComputeError>,
        statistics: Result<Statistics, ComputeError>,
        now: u64,
    ) -> (r: Result<CacheStore, StartError>)
        ensures
            r is Ok <==> (count is Ok && statistics is Ok),
            r is Ok ==> r->Ok_0@ == (StoreView {
                count: EntryView::bootstrapped(count->Ok_0, now as nat, count_config),
                statistics: EntryView::bootstrapped(
                    statistics->Ok_0@,
                    now as nat,
                    statistics_config,
                ),
                running: true,
            }),
            count is Err ==> r == Err::<CacheStore, StartError>(StartError::Count(count->Err_0)),
            count is Ok && statistics is Err ==> r == Err::<CacheStore, StartError>(
                StartError::Statistics(statistics->Err_0),
            ),
    {
        match count {
            Err(e) => Err(StartError::Count(e)),
            Ok(c) => match statistics {
                Err(e) => Err(StartError::Statistics(e)),
                Ok(s) => Ok(
                    CacheStore {
                        count: CacheEntry::new(c, now, count_config),
                        statistics: CacheEntry::new(s, now, statistics_config),
                        running: true,
                    },
                ),
            },
        }
    }

    /// The current device count and when it was computed.
    pub fn read_count(&self) -> (r: CountCahe)
        ensures
            r.count == self@.count.value,
            r.updated_at == self@.count.computed_at,
    {
        let (c, at) = self.count.read();
        CountCahe { count: *c, updated_at: at }
    }

    /// The current statistics and when they were computed.
    pub fn read_statistics(&self) -> (r: StatisticsCache)
        ensures
            r.statistics@ == self@.statistics.value,
            r.updated_at == self@.statistics.computed_at,
    {
        let (s, at) = self.statistics.read();
        StatisticsCache { statistics: s.duplicate(), updated_at: at }
    }

    pub fn count_entry(&self) -> (r: &CacheEntry<i64>)
        ensures
            r@ == self@.count,
    {
        &self.count
    }

    pub fn statistics_entry(&self) -> (r: &CacheEntry<Statistics>)
        ensures
            r@ == self@.statistics,
    {
        &self.statistics
    }

    /// Whether background refresh loops should keep going.
    pub fn is_running(&self) -> (r: bool)
        ensures
            r == self@.running,
    {
        self.running
    }

    /// Asks background refresh loops to exit at their next safe point.
    pub fn stop(&mut self)
        ensures
            final(self)@ == (StoreView { running: false, ..old(self)@ }),
    {
        self.running = false;
    }

    /// The single-flight guard of an artifact: true only for the caller that
    /// now holds its refresh token.
    pub fn try_begin_refresh(&mut self, a: Artifact) -> (won: bool)
        ensures
            won == !old(self)@.refreshing(a),
            a == Artifact::Count ==> final(self)@ == old(self)@.with_count(old(self)@.count.begun()),
            a == Artifact::Statistics ==> final(self)@ == old(self)@.with_statistics(
                old(self)@.statistics.begun(),
            ),
    {
        match a {
            Artifact::Count => self.count.try_begin_refresh(),
            Artifact::Statistics => self.statistics.try_begin_refresh(),
        }
    }

    /// Releases an artifact's refresh token and keeps its value.
    pub fn abort_refresh(&mut self, a: Artifact)
        ensures
            a == Artifact::Count ==> final(self)@ == old(self)@.with_count(
                old(self)@.count.aborted(),
            ),
            a == Artifact::Statistics ==> final(self)@ == old(self)@.with_statistics(
                old(self)@.statistics.aborted(),
            ),
    {
        match a {
            Artifact::Count => self.count.abort_refresh(),
            Artifact::Statistics => self.statistics.abort_refresh(),
        }
    }

    /// The read path of an artifact: true when this read must start its refresh.
    pub fn on_read(&mut self, a: Artifact, now: u64) -> (start: bool)
        ensures
            a == Artifact::Count ==> start == old(self)@.count.read_starts_refresh(now as int)
                && final(self)@ == old(self)@.with_count(old(self)@.count.after_read(now as int)),
            a == Artifact::Statistics ==> start == old(self)@.statistics.read_starts_refresh(
                now as int,
            ) && final(self)@ == old(self)@.with_statistics(
                old(self)@.statistics.after_read(now as int),
            ),
    {
        match a {
            Artifact::Count => self.count.on_read(now),
            Artifact::Statistics => self.statistics.on_read(now),
        }
    }

    /// Ends a refresh of the device count.
    pub fn finish_count(&mut self, result: Result<i64, ComputeError>, now: u64) -> (r:
        RefreshOutcome)
        requires
            old(self)@.count.computed_at <= now,
            old(self)@.count.generation < u64::MAX,
        ensures
            final(self)@ == old(self)@.with_count(
                old(self)@.count.finished(result_view(result), now as nat),
            ),
            result is Ok <==> r is Completed,
            result is Err ==> r == RefreshOutcome::Failed(result->Err_0),
    {
        self.count.finish_refresh(result, now)
    }

    /// Ends a refresh of the statistics.
    pub fn finish_statistics(&mut self, result: Result<Statistics, ComputeError>, now: u64) -> (r:
        RefreshOutcome)
        requires
            old(self)@.statistics.computed_at <= now,
            old(self)@.statistics.generation < u64::MAX,
        ensures
            final(self)@ == old(self)@.with_statistics(
                old(self)@.statistics.finished(result_view(result), now as nat),
            ),
            result is Ok <==> r is Completed,
            result is Err ==> r == RefreshOutcome::Failed(result->Err_0),
    {
        self.statistics.finish_refresh(result, now)
    }
}

} // verus!
