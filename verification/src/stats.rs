//! The usage history: two growing series of percentages and the time of the
//! last refresh, with the rule that decides when a refresh is due and which
//! measurements are kept.

use vstd::arithmetic::div_mod::{
    lemma_div_is_ordered, lemma_div_multiples_vanish, lemma_div_pos_is_pos,
};
use vstd::prelude::*;

verus! {

/// Least time between two refreshes, in nanoseconds: fifteen seconds.
pub const REFRESH_INTERVAL_NS: u64 = 15_000_000_000;

/// Why a measurement could not be had.
#[derive(Clone, Copy, Debug, PartialEq, Eq)]
pub enum MetricsError {
    /// The operating system did not answer the query.
    Unavailable,
    /// The memory totals make no percentage: no memory at all, or more of it
    /// free than there is.
    InvalidTotals,
}

/// A percentage is worth plotting when it lies strictly between 0 and 100.
pub open spec fn plottable(value: u64) -> bool {
    0 < value < 100
}

/// What one measurement adds to its series: the value itself when the
/// measurement succeeded and is worth plotting, nothing otherwise.
pub open spec fn kept(sample: Result<u64, MetricsError>) -> Seq<u64> {
    match sample {
        Ok(value) => if plottable(value) {
            seq![value]
        } else {
            Seq::empty()
        },
        Err(_) => Seq::empty(),
    }
}

/// The share of memory in use, in whole percent, rounded down.
pub open spec fn memory_percent(total: int, free: int) -> int {
    (total - free) * 100 / total
}

/// What an [`InfoStats`] is, mathematically: the time of the last refresh on
/// the caller's clock, and the two series, oldest value first.
pub struct StatsView {
    pub last_update: nat,
    pub cpu: Seq<u64>,
    pub mem: Seq<u64>,
}

/// One offer of measurements to the history: when they were taken, and what
/// they were.
pub struct Offer {
    pub now: nat,
    pub cpu: Result<u64, MetricsError>,
    pub mem: Result<u64, MetricsError>,
}

/// Any two of the offers are less than one refresh interval apart.
pub open spec fn within_one_interval(offers: Seq<Offer>) -> bool {
    forall|i: int, j: int|
        #![trigger offers[i], offers[j]]
        0 <= i < offers.len() && 0 <= j < offers.len()
            ==> offers[j].now - offers[i].now < REFRESH_INTERVAL_NS
}

impl StatsView {
    /// Every value in both series is worth plotting.
    pub open spec fn wf(self) -> bool {
        &&& forall|i: int| 0 <= i < self.cpu.len() ==> plottable(#[trigger] self.cpu[i])
        &&& forall|i: int| 0 <= i < self.mem.len() ==> plottable(#[trigger] self.mem[i])
    }

    /// A refresh is due once a full interval has passed since the last one.
    /// A clock reading before the last refresh counts as no time passed.
    pub open spec fn due(self, now: nat) -> bool {
        now - self.last_update >= REFRESH_INTERVAL_NS
    }

    /// The history after the measurements `cpu` and `mem`, taken at `now`,
    /// were offered to it. When no refresh is due they are ignored. When one
    /// is due the time of the last refresh becomes `now`, whatever the
    /// measurements were, and each series grows by what is kept of its
    /// measurement.
    pub open spec fn sampled(
        self,
        now: nat,
        cpu: Result<u64, MetricsError>,
        mem: Result<u64, MetricsError>,
    ) -> StatsView {
        if self.due(now) {
            StatsView { last_update: now, cpu: self.cpu + kept(cpu), mem: self.mem + kept(mem) }
        } else {
            self
        }
    }

    /// The history after a run of offers, made in the order of the sequence.
    pub open spec fn sampled_all(self, offers: Seq<Offer>) -> StatsView
        decreases offers.len(),
    {
        if offers.len() == 0 {
            self
        } else {
            let last = offers.last();
            self.sampled_all(offers.drop_last()).sampled(last.now, last.cpu, last.mem)
        }
    }
}

/// The usage history shown on the first tab.
///
/// Time is a reading of a monotonic clock in nanoseconds; where the clock
/// starts does not matter, as only differences are looked at. The fields are
/// open to the caller; a history that is only ever changed through
/// [`InfoStats::maybe_sample`] stays well-formed and never shrinks.
pub struct InfoStats {
    pub last_update: u64,
    pub cpu_usage: Vec<u64>,
    pub mem_usage: Vec<u64>,
}

impl View for InfoStats {
    type V = StatsView;

    open spec fn view(&self) -> StatsView {
        StatsView {
            last_update: self.last_update as nat,
            cpu: self.cpu_usage@,
            mem: self.mem_usage@,
        }
    }
}

impl InfoStats {
    /// Every stored value is worth plotting; see [`StatsView::wf`].
    pub open spec fn wf(&self) -> bool {
        self@.wf()
    }

    /// An empty history whose last refresh counts as having happened at
    /// `now`, so that the first refresh is due one interval later.
    pub fn new(now: u64) -> (stats: InfoStats)
        ensures
            stats.last_update == now,
            stats.cpu_usage@ == Seq::<u64>::empty(),
            stats.mem_usage@ == Seq::<u64>::empty(),
            stats.wf(),
    {
        InfoStats { last_update: now, cpu_usage: Vec::new(), mem_usage: Vec::new() }
    }

    /// Whether a refresh is due at `now`.
    pub fn is_due(&self, now: u64) -> (due: bool)
        ensures
            due == self@.due(now as nat),
            due == (now - self.last_update >= REFRESH_INTERVAL_NS),
    {
        now >= self.last_update && now - self.last_update >= REFRESH_INTERVAL_NS
    }

    /// Offers the measurements `cpu` and `mem`, taken at `now`, to the
    /// history.
    ///
    /// When no refresh is due nothing changes. When one is due, `now` becomes
    /// the time of the last refresh even if both measurements failed, and
    /// each measurement that succeeded with a value strictly between 0 and
    /// 100 is appended to its series. No other value ever enters a series.
    pub fn maybe_sample(
        &mut self,
        now: u64,
        cpu: Result<u64, MetricsError>,
        mem: Result<u64, MetricsError>,
    )
        ensures
            final(self)@ == old(self)@.sampled(now as nat, cpu, mem),
            !old(self)@.due(now as nat) ==> *final(self) == *old(self),
            old(self)@.due(now as nat) ==> final(self).last_update == now,
            !(cpu matches Ok(v) && plottable(v))
                ==> final(self).cpu_usage@ == old(self).cpu_usage@,
            !(mem matches Ok(v) && plottable(v))
                ==> final(self).mem_usage@ == old(self).mem_usage@,
            old(self).wf() ==> final(self).wf(),
    {
        if self.is_due(now) {
            self.last_update = now;
            if let Some(value) = keep(cpu) {
                self.cpu_usage.push(value);
            }
            if let Some(value) = keep(mem) {
                self.mem_usage.push(value);
            }
            assert(self.cpu_usage@ =~= old(self).cpu_usage@ + kept(cpu));
            assert(self.mem_usage@ =~= old(self).mem_usage@ + kept(mem));
        }
        proof {
            if old(self).wf() {
                lemma_sampled_keeps_wf(old(self)@, now as nat, cpu, mem);
            }
        }
    }

    /// The CPU series, oldest value first.
    pub fn history_cpu(&self) -> (history: &Vec<u64>)
        ensures
            history@ == self@.cpu,
    {
        &self.cpu_usage
    }

    /// The memory series, oldest value first.
    pub fn history_mem(&self) -> (history: &Vec<u64>)
        ensures
            history@ == self@.mem,
    {
        &self.mem_usage
    }
}

/// Filters one measurement: a value that is worth plotting is handed on; a
/// failed measurement, a value of 0 and a value of 100 or more are dropped.
pub fn keep(sample: Result<u64, MetricsError>) -> (value: Option<u64>)
    ensures
        value is Some <==> (sample matches Ok(v) && plottable(v)),
        value matches Some(v) ==> sample == Ok::<u64, MetricsError>(v),
        value matches Some(v) ==> kept(sample) == seq![v],
        value is None ==> kept(sample) == Seq::<u64>::empty(),
{
    match sample {
        Ok(v) => if 0 < v && v < 100 {
            Some(v)
        } else {
            None
        },
        Err(_) => None,
    }
}

/// The share of memory in use, in whole percent rounded down, from the total
/// amount and the free amount, both in the same unit.
///
/// Totals that make no percentage are rejected: a `total` of zero, and a
/// `free` above `total`. The result is exact however large the amounts are.
pub fn memory_usage(total: u64, free: u64) -> (usage: Result<u64, MetricsError>)
    ensures
        usage is Ok <==> 0 < total && free <= total,
        usage matches Ok(percent) ==> percent == memory_percent(total as int, free as int),
        usage matches Ok(percent) ==> percent <= 100,
        usage matches Err(e) ==> e == MetricsError::InvalidTotals,
{
    if total == 0 || free > total {
        return Err(MetricsError::InvalidTotals);
    }
    let used: u128 = (total - free) as u128;
    let whole: u128 = total as u128;
    proof {
        lemma_percent_bound(used as int, whole as int);
    }
    let percent: u128 = used * 100 / whole;
    Ok(percent as u64)
}

/// A part of a whole is at most a hundred percent of it.
proof fn lemma_percent_bound(part: int, whole: int)
    requires
        0 <= part <= whole,
        0 < whole,
    ensures
        0 <= part * 100 / whole <= 100,
{
    assert(part * 100 <= whole * 100) by (nonlinear_arith)
        requires
            part <= whole,
    ;
    lemma_div_is_ordered(part * 100, whole * 100, whole);
    lemma_div_multiples_vanish(100, whole);
    lemma_div_pos_is_pos(part * 100, whole);
}

/// No offer puts a value of 0, or of 100 and more, into the history: where
/// every stored value was worth plotting before, every one is so after.
pub proof fn lemma_sampled_keeps_wf(
    s: StatsView,
    now: nat,
    cpu: Result<u64, MetricsError>,
    mem: Result<u64, MetricsError>,
)
    requires
        s.wf(),
    ensures
        s.sampled(now, cpu, mem).wf(),
{
    let after = s.sampled(now, cpu, mem);
    assert forall|i: int| 0 <= i < after.cpu.len() implies plottable(#[trigger] after.cpu[i]) by {
        if i < s.cpu.len() {
            assert(after.cpu[i] == s.cpu[i]);
        }
    }
    assert forall|i: int| 0 <= i < after.mem.len() implies plottable(#[trigger] after.mem[i]) by {
        if i < s.mem.len() {
            assert(after.mem[i] == s.mem[i]);
        }
    }
}

/// An offer never takes a value out of the history: what was stored before
/// is still there, at the same place, after.
pub proof fn lemma_sampled_extends(
    s: StatsView,
    now: nat,
    cpu: Result<u64, MetricsError>,
    mem: Result<u64, MetricsError>,
)
    ensures
        s.cpu.is_prefix_of(s.sampled(now, cpu, mem).cpu),
        s.mem.is_prefix_of(s.sampled(now, cpu, mem).mem),
{
    let after = s.sampled(now, cpu, mem);
    assert(after.cpu.subrange(0, s.cpu.len() as int) =~= s.cpu);
    assert(after.mem.subrange(0, s.mem.len() as int) =~= s.mem);
}

/// Within one interval the history is refreshed at most once: of two offers
/// less than an interval apart, at most one is taken. Once the first offer
/// was taken the second changes nothing, and each series grows by at most
/// one value over both.
pub proof fn lemma_one_refresh_per_interval(
    s: StatsView,
    first: Offer,
    second: Offer,
)
    requires
        second.now - first.now < REFRESH_INTERVAL_NS,
    ensures
        ({
            let once = s.sampled(first.now, first.cpu, first.mem);
            let twice = once.sampled(second.now, second.cpu, second.mem);
            &&& s.due(first.now) ==> twice == once
            &&& !s.due(first.now) ==> once == s
            &&& twice.cpu.len() <= s.cpu.len() + 1
            &&& twice.mem.len() <= s.mem.len() + 1
        }),
{
}

/// However often measurements are offered within one interval, at most one
/// offer is taken: where any two of the offers are less than an interval
/// apart, each series grows by at most one value over the whole run.
pub proof fn lemma_one_refresh_per_run(s: StatsView, offers: Seq<Offer>)
    requires
        within_one_interval(offers),
    ensures
        s.sampled_all(offers).cpu.len() <= s.cpu.len() + 1,
        s.sampled_all(offers).mem.len() <= s.mem.len() + 1,
{
    lemma_run_takes_one(s, offers);
}

/// After a run of offers that lie less than an interval apart, the history
/// is either untouched or was refreshed once, at the time of one of them.
proof fn lemma_run_takes_one(s: StatsView, offers: Seq<Offer>)
    requires
        within_one_interval(offers),
    ensures
        ({
            let after = s.sampled_all(offers);
            ||| after == s
            ||| {
                &&& exists|k: int|
                    0 <= k < offers.len() && after.last_update == (#[trigger] offers[k]).now
                &&& after.cpu.len() <= s.cpu.len() + 1
                &&& after.mem.len() <= s.mem.len() + 1
            }
        }),
    decreases offers.len(),
{
    if offers.len() > 0 {
        let front = offers.drop_last();
        let last = offers.last();
        assert(within_one_interval(front)) by {
            assert forall|i: int, j: int|
                #![trigger front[i], front[j]]
                0 <= i < front.len() && 0 <= j < front.len() implies front[j].now - front[i].now
                < REFRESH_INTERVAL_NS by {
                assert(front[i] == offers[i]);
                assert(front[j] == offers[j]);
            }
        }
        lemma_run_takes_one(s, front);
        let before = s.sampled_all(front);
        let after = before.sampled(last.now, last.cpu, last.mem);
        if before == s {
            if s.due(last.now) {
                assert(after.last_update == offers[offers.len() - 1].now);
            }
        } else {
            let k = choose|k: int|
                0 <= k < front.len() && before.last_update == (#[trigger] front[k]).now;
            assert(front[k] == offers[k]);
            assert(offers[offers.len() - 1].now - offers[k].now < REFRESH_INTERVAL_NS);
        }
    }
}

} // verus!
