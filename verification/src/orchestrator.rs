//! The run as a whole: the monitors of all watched chains, the latest
//! snapshot of each chain's statistics for the reports, and the run's end.
//!
//! Timers, calls and files are the caller's part. On every poll tick the
//! caller takes each monitor through one poll, step by step, and then says
//! that the cycle is done; on every report tick it says so too. The answer
//! tells it whether to go on, what to log and persist, and when to leave
//! after a last report.

use vstd::prelude::*;

use crate::clock::{chrono_now, UtcInstant};
use crate::config::{duration_exceeded, limit_exceeded, ConfigError};
use crate::monitor::{
    step_action_fits, step_note, ChainInfo, ChainMonitor, MonitorView, PollAction, PollEvent,
    PollStep,
};
use crate::report::ChainReport;
use crate::stats::{ChainStats, ChainStatsView};

verus! {

/// No two snapshots are for the same chain name.
pub open spec fn distinct_names(snapshots: Seq<ChainStatsView>) -> bool {
    forall|i: int, j: int|
        0 <= i < j < snapshots.len() ==> (#[trigger] snapshots[i]).chain_name != (
        #[trigger] snapshots[j]).chain_name
}

/// `snapshots` holds a snapshot for the chain `name` at position `i`.
pub open spec fn holds_at(snapshots: Seq<ChainStatsView>, name: Seq<char>, i: int) -> bool {
    0 <= i < snapshots.len() && snapshots[i].chain_name == name
}

/// Where `snapshots` holds the snapshot for the chain `name`, if it holds
/// one.
pub open spec fn position_of(snapshots: Seq<ChainStatsView>, name: Seq<char>) -> Option<int> {
    if exists|i: int| holds_at(snapshots, name, i) {
        Some(choose|i: int| holds_at(snapshots, name, i))
    } else {
        None
    }
}

/// `snapshots` with `stats` in the place of the snapshot for the same chain
/// name, or at the end where there was none.
pub open spec fn upsert(snapshots: Seq<ChainStatsView>, stats: ChainStatsView) -> Seq<
    ChainStatsView,
> {
    match position_of(snapshots, stats.chain_name) {
        Some(i) => snapshots.update(i, stats),
        None => snapshots.push(stats),
    }
}

/// The snapshots as a mapping from chain name to snapshot.
pub open spec fn by_name(snapshots: Seq<ChainStatsView>) -> Map<Seq<char>, ChainStatsView> {
    Map::new(
        |name: Seq<char>| position_of(snapshots, name) is Some,
        |name: Seq<char>| snapshots[position_of(snapshots, name)->0],
    )
}

/// With distinct names, a chain's snapshot is found where it is.
pub proof fn lemma_position_unique(snapshots: Seq<ChainStatsView>, name: Seq<char>, i: int)
    requires
        distinct_names(snapshots),
        holds_at(snapshots, name, i),
    ensures
        position_of(snapshots, name) == Some(i),
{
    let k = choose|k: int| holds_at(snapshots, name, k);
    if k < i {
        assert(snapshots[k].chain_name != snapshots[i].chain_name);
    } else if i < k {
        assert(snapshots[i].chain_name != snapshots[k].chain_name);
    }
}

/// Putting a snapshot in keeps the names distinct and works as on a
/// mapping keyed by chain name: the snapshot replaces the one of its chain,
/// and every other chain's snapshot stays.
pub proof fn lemma_upsert_is_insert(snapshots: Seq<ChainStatsView>, stats: ChainStatsView)
    requires
        distinct_names(snapshots),
    ensures
        distinct_names(upsert(snapshots, stats)),
        by_name(upsert(snapshots, stats)) == by_name(snapshots).insert(stats.chain_name, stats),
{
    let after = upsert(snapshots, stats);
    let at = match position_of(snapshots, stats.chain_name) {
        Some(i) => i,
        None => snapshots.len() as int,
    };
    assert(holds_at(after, stats.chain_name, at));
    assert forall|i: int, j: int| 0 <= i < j < after.len() implies (#[trigger] after[i]).chain_name
        != (#[trigger] after[j]).chain_name by {
        if i != at && j != at {
            assert(after[i] == snapshots[i] && after[j] == snapshots[j]);
        } else if i == at {
            if j < snapshots.len() {
                assert(after[j] == snapshots[j]);
                if position_of(snapshots, stats.chain_name) is None {
                    assert(!holds_at(snapshots, stats.chain_name, j));
                } else {
                    assert(snapshots[at].chain_name != snapshots[j].chain_name);
                }
            }
        } else {
            assert(after[i] == snapshots[i]);
            if position_of(snapshots, stats.chain_name) is None {
                assert(!holds_at(snapshots, stats.chain_name, i));
            } else {
                assert(snapshots[i].chain_name != snapshots[at].chain_name);
            }
        }
    }
    let left = by_name(after);
    let right = by_name(snapshots).insert(stats.chain_name, stats);
    assert forall|name: Seq<char>| left.dom().contains(name) <==> right.dom().contains(name) by {
        if name == stats.chain_name {
            lemma_position_unique(after, name, at);
        } else {
            if position_of(snapshots, name) is Some {
                let i = position_of(snapshots, name)->0;
                assert(holds_at(snapshots, name, i));
                assert(holds_at(after, name, i));
            }
            if position_of(after, name) is Some {
                let i = position_of(after, name)->0;
                assert(holds_at(after, name, i));
                assert(holds_at(snapshots, name, i));
            }
        }
    }
    assert forall|name: Seq<char>| #[trigger] left.dom().contains(name) implies left[name]
        == right[name] by {
        if name == stats.chain_name {
            lemma_position_unique(after, name, at);
        } else {
            let i = position_of(after, name)->0;
            assert(holds_at(after, name, i));
            assert(holds_at(snapshots, name, i));
            lemma_position_unique(snapshots, name, i);
        }
    }
    assert(left =~= right);
}

/// The latest snapshot of each chain's statistics, by chain name; a chain
/// keeps the place at which it first came in.
#[derive(Debug)]
pub struct ChainStatsMap {
    entries: Vec<ChainStats>,
}

impl View for ChainStatsMap {
    type V = Seq<ChainStatsView>;

    closed spec fn view(&self) -> Seq<ChainStatsView> {
        Seq::new(self.entries@.len(), |i: int| self.entries@[i]@)
    }
}

impl ChainStatsMap {
    /// Every snapshot is sound, and no two are for the same chain name.
    pub closed spec fn wf(&self) -> bool {
        &&& forall|i: int| 0 <= i < self.entries@.len() ==> (#[trigger] self.entries@[i]).wf()
        &&& distinct_names(self@)
    }

    /// A mapping without snapshots.
    pub fn new() -> (map: Self)
        ensures
            map.wf(),
            map@ == Seq::<ChainStatsView>::empty(),
    {
        let map = ChainStatsMap { entries: Vec::new() };
        assert(map@ =~= Seq::<ChainStatsView>::empty());
        map
    }

    /// Puts `stats` in: in the place of the snapshot for the same chain name,
    /// or at the end where there was none.
    pub fn insert(&mut self, stats: ChainStats)
        requires
            old(self).wf(),
            stats.wf(),
        ensures
            final(self).wf(),
            final(self)@ == upsert(old(self)@, stats@),
    {
        let ghost before = self@;
        let ghost view = stats@;
        proof {
            lemma_upsert_is_insert(before, view);
        }
        let mut i: usize = 0;
        while i < self.entries.len()
            invariant
                i <= self.entries@.len(),
                self@ == before,
                before == old(self)@,
                stats@ == view,
                forall|j: int| 0 <= j < i ==> !holds_at(before, view.chain_name, j),
                self.wf(),
                stats.wf(),
                distinct_names(before),
                distinct_names(upsert(before, view)),
            decreases self.entries@.len() - i,
        {
            assert(before[i as int] == self.entries@[i as int]@);
            if *self.entries[i].chain_name() == *stats.chain_name() {
                proof {
                    assert(holds_at(before, view.chain_name, i as int));
                    lemma_position_unique(before, view.chain_name, i as int);
                }
                self.entries.set(i, stats);
                assert(self@ =~= before.update(i as int, view));
                return ;
            }
            i += 1;
        }
        assert(position_of(before, view.chain_name) is None);
        self.entries.push(stats);
        assert(self@ =~= before.push(view));
    }

    /// Number of snapshots held.
    pub fn len(&self) -> (len: usize)
        ensures
            len == self@.len(),
    {
        self.entries.len()
    }

    /// The snapshot at position `index`.
    pub fn get(&self, index: usize) -> (stats: &ChainStats)
        requires
            self.wf(),
            index < self@.len(),
        ensures
            stats.wf(),
            stats@ == self@[index as int],
    {
        &self.entries[index]
    }
}

/// What the caller brings to the run, besides the steps of the polls.
#[derive(Clone, Copy, Debug, PartialEq, Eq, Structural)]
pub enum RunEvent {
    /// Every monitor has been through its poll for this poll tick; the run
    /// has lasted this long.
    PollCycleDone { elapsed_secs: u64, elapsed_subsec_nanos: u32 },
    /// The report timer fired.
    ReportTick,
}

/// What the caller does next.
#[derive(Debug)]
pub enum RunAction {
    /// Wait for the next tick.
    Continue,
    /// Log and persist these reports, then wait for the next tick.
    Report(Vec<ChainReport>),
    /// The run is over: log and persist these reports a last time, then
    /// leave.
    Shutdown(Vec<ChainReport>),
}

/// `reports` holds one report per snapshot, in the order of the snapshots.
pub open spec fn reports_cover(reports: Seq<ChainReport>, snapshots: Seq<ChainStatsView>) -> bool {
    &&& reports.len() == snapshots.len()
    &&& forall|i: int| 0 <= i < reports.len() ==> (#[trigger] reports[i]).is_for(snapshots[i])
}

/// The action fits the event. A report tick is answered with a report on
/// every snapshot. The end of a poll cycle is answered with the last report
/// on every snapshot once the run has lasted longer than its limit, and else
/// the run goes on; the limit is looked at then and at no other time.
pub open spec fn run_action_fits(run: OrchestratorView, event: RunEvent, action: RunAction) -> bool {
    match event {
        RunEvent::ReportTick => action matches RunAction::Report(reports) && reports_cover(
            reports@,
            run.chain_stats,
        ),
        RunEvent::PollCycleDone { elapsed_secs, elapsed_subsec_nanos } => if limit_exceeded(
            run.duration_limit_secs,
            elapsed_secs,
            elapsed_subsec_nanos,
        ) {
            action matches RunAction::Shutdown(reports) && reports_cover(reports@, run.chain_stats)
        } else {
            action is Continue
        },
    }
}

/// What an `Orchestrator` stands for: its monitors in the order of their
/// chains, the latest snapshots, and the run's length in seconds if it has
/// an end.
pub struct OrchestratorView {
    pub monitors: Seq<MonitorView>,
    pub chain_stats: Seq<ChainStatsView>,
    pub duration_limit_secs: Option<u64>,
}

/// The step that `event` caused has ended a poll: it was no tick, and it
/// left the monitor `post` without a walk under way.
pub open spec fn poll_is_over(post: MonitorView, event: PollEvent) -> bool {
    !(event is Tick) && post.walk is None
}

impl OrchestratorView {
    /// The run after the monitor at `index` has made the step that `event`
    /// causes at `now`. When that step ends the monitor's poll, the monitor's
    /// statistics replace the snapshot of its chain.
    pub open spec fn poll_step(self, index: int, event: PollEvent, now: int) -> OrchestratorView {
        let monitor = self.monitors[index].step(event, now);
        OrchestratorView {
            monitors: self.monitors.update(index, monitor),
            chain_stats: if poll_is_over(monitor, event) {
                upsert(self.chain_stats, monitor.stats)
            } else {
                self.chain_stats
            },
            ..self
        }
    }
}

/// A step touches one chain only: every other monitor is as it was, and so
/// is every snapshot of a chain with another name than the stepped
/// monitor's.
pub proof fn lemma_poll_step_touches_one_chain(
    pre: OrchestratorView,
    index: int,
    event: PollEvent,
    now: int,
    other: int,
)
    requires
        0 <= index < pre.monitors.len(),
        0 <= other < pre.monitors.len(),
        other != index,
        distinct_names(pre.chain_stats),
    ensures
        ({
            let post = pre.poll_step(index, event, now);
            let stepped = post.monitors[index];
            &&& post.monitors.len() == pre.monitors.len()
            &&& post.monitors[other] == pre.monitors[other]
            &&& post.duration_limit_secs == pre.duration_limit_secs
            &&& forall|name: Seq<char>|
                name != stepped.stats.chain_name ==> (by_name(post.chain_stats).dom().contains(name)
                    <==> by_name(pre.chain_stats).dom().contains(name))
            &&& forall|name: Seq<char>|
                name != stepped.stats.chain_name && by_name(pre.chain_stats).dom().contains(name)
                    ==> by_name(post.chain_stats)[name] == by_name(pre.chain_stats)[name]
        }),
{
    let post = pre.poll_step(index, event, now);
    let stepped = post.monitors[index];
    if poll_is_over(stepped, event) {
        lemma_upsert_is_insert(pre.chain_stats, stepped.stats);
    }
}

/// The monitor of a chain that has not been polled yet.
pub open spec fn fresh_monitor(chain: ChainInfo) -> MonitorView {
    MonitorView {
        chain_name: chain.name@,
        rpc_url: chain.rpc_url@,
        last_block_number: None,
        stats: ChainStatsView { chain_name: chain.name@, deltas: Seq::empty() },
        request_id: 1,
        walk: None,
    }
}

/// Drives the monitors of all watched chains through a run.
#[derive(Debug)]
pub struct Orchestrator {
    monitors: Vec<ChainMonitor>,
    chain_stats: ChainStatsMap,
    duration_limit_secs: Option<u64>,
}

impl View for Orchestrator {
    type V = OrchestratorView;

    closed spec fn view(&self) -> OrchestratorView {
        OrchestratorView {
            monitors: Seq::new(self.monitors@.len(), |i: int| self.monitors@[i]@),
            chain_stats: self.chain_stats@,
            duration_limit_secs: self.duration_limit_secs,
        }
    }
}

impl Orchestrator {
    /// Every monitor and the snapshots are sound.
    pub closed spec fn wf(&self) -> bool {
        &&& forall|i: int| 0 <= i < self.monitors@.len() ==> (#[trigger] self.monitors@[i]).wf()
        &&& self.chain_stats.wf()
    }

    /// A run over `chains`, limited to `duration_limit_secs` seconds if at
    /// all. A run needs at least one chain.
    pub fn new(chains: Vec<ChainInfo>, duration_limit_secs: Option<u64>) -> (run: Result<
        Orchestrator,
        ConfigError,
    >)
        ensures
            run is Err <==> chains@.len() == 0,
            run matches Ok(orchestrator) ==> {
                &&& orchestrator.wf()
                &&& orchestrator@.monitors == chains@.map_values(
                    |chain: ChainInfo| fresh_monitor(chain),
                )
                &&& orchestrator@.chain_stats == Seq::<ChainStatsView>::empty()
                &&& orchestrator@.duration_limit_secs == duration_limit_secs
            },
    {
        if chains.len() == 0 {
            return Err(ConfigError::NoChains);
        }
        let ghost all = chains@;
        let mut rest = chains;
        let mut monitors: Vec<ChainMonitor> = Vec::new();
        while rest.len() > 0
            invariant
                monitors@.len() + rest@.len() == all.len(),
                rest@ == all.skip(monitors@.len() as int),
                forall|i: int|
                    0 <= i < monitors@.len() ==> (#[trigger] monitors@[i]).wf() && monitors@[i]@
                        == fresh_monitor(all[i]),
            decreases rest@.len(),
        {
            let chain = rest.remove(0);
            assert(chain == all[monitors@.len() as int]);
            assert(rest@ =~= all.skip(monitors@.len() as int + 1));
            monitors.push(ChainMonitor::new(chain));
        }
        let orchestrator = Orchestrator {
            monitors,
            chain_stats: ChainStatsMap::new(),
            duration_limit_secs,
        };
        assert(orchestrator@.monitors =~= all.map_values(|chain: ChainInfo| fresh_monitor(chain)));
        Ok(orchestrator)
    }

    /// Number of monitors.
    pub fn monitor_count(&self) -> (count: usize)
        ensures
            count == self@.monitors.len(),
    {
        self.monitors.len()
    }

    /// The monitor at position `index`.
    pub fn monitor(&self, index: usize) -> (monitor: &ChainMonitor)
        requires
            self.wf(),
            index < self@.monitors.len(),
        ensures
            monitor.wf(),
            monitor@ == self@.monitors[index as int],
    {
        &self.monitors[index]
    }

    /// Takes the monitor at `index` through the step that `event` causes, at
    /// the time `now`. When the step ends the monitor's poll, the monitor's
    /// statistics replace the snapshot of its chain.
    pub fn poll_step_at(&mut self, index: usize, event: PollEvent, now: UtcInstant) -> (step: PollStep)
        requires
            old(self).wf(),
            index < old(self)@.monitors.len(),
            now.wf(),
        ensures
            final(self).wf(),
            final(self)@ == old(self)@.poll_step(index as int, event, now@),
            step.note == step_note(old(self)@.monitors[index as int], event, now@),
            step_action_fits(
                old(self)@.monitors[index as int],
                final(self)@.monitors[index as int],
                event,
                step.action,
            ),
            step.action is Done <==> poll_is_over(final(self)@.monitors[index as int], event),
    {
        let ghost before = self@;
        let step = self.monitors[index].step_at(event, now);
        assert(self@.monitors =~= before.monitors.update(
            index as int,
            before.monitors[index as int].step(event, now@),
        ));
        if let PollAction::Done = step.action {
            let stats = self.monitors[index].get_stats();
            self.chain_stats.insert(stats);
        }
        step
    }

    /// Takes the monitor at `index` through the step that `event` causes, at
    /// the current time.
    pub fn poll_step(&mut self, index: usize, event: PollEvent) -> (step: PollStep)
        requires
            old(self).wf(),
            index < old(self)@.monitors.len(),
        ensures
            final(self).wf(),
            exists|now: UtcInstant| #[trigger]
                now.wf() && final(self)@ == old(self)@.poll_step(index as int, event, now@)
                    && step.note == step_note(old(self)@.monitors[index as int], event, now@),
            step_action_fits(
                old(self)@.monitors[index as int],
                final(self)@.monitors[index as int],
                event,
                step.action,
            ),
            step.action is Done <==> poll_is_over(final(self)@.monitors[index as int], event),
    {
        let now = chrono_now();
        let step = self.poll_step_at(index, event, now);
        assert(now.wf() && self@ == old(self)@.poll_step(index as int, event, now@) && step.note
            == step_note(old(self)@.monitors[index as int], event, now@));
        step
    }

    /// Whether the run is over after `elapsed_secs` seconds and
    /// `elapsed_subsec_nanos` nanoseconds: it is once it has lasted longer
    /// than its limit, and never if it has none.
    pub fn should_stop(&self, elapsed_secs: u64, elapsed_subsec_nanos: u32) -> (stop: bool)
        ensures
            stop == limit_exceeded(self@.duration_limit_secs, elapsed_secs, elapsed_subsec_nanos),
    {
        duration_exceeded(self.duration_limit_secs, elapsed_secs, elapsed_subsec_nanos)
    }

    /// Decides what follows `event`: a report on every report tick, and at
    /// the end of a poll cycle either the next tick or, once the run has
    /// lasted longer than its limit, the shutdown with its last report.
    pub fn on_event(&self, event: RunEvent) -> (action: RunAction)
        requires
            self.wf(),
        ensures
            run_action_fits(self@, event, action),
    {
        match event {
            RunEvent::ReportTick => RunAction::Report(self.reports()),
            RunEvent::PollCycleDone { elapsed_secs, elapsed_subsec_nanos } => {
                if self.should_stop(elapsed_secs, elapsed_subsec_nanos) {
                    RunAction::Shutdown(self.reports())
                } else {
                    RunAction::Continue
                }
            },
        }
    }

    /// The latest snapshots, in the order in which their chains first
    /// finished a poll.
    pub fn chain_stats(&self) -> (snapshots: &ChainStatsMap)
        requires
            self.wf(),
        ensures
            snapshots.wf(),
            snapshots@ == self@.chain_stats,
    {
        &self.chain_stats
    }

    /// A report on every snapshot, in the order of the snapshots.
    pub fn reports(&self) -> (reports: Vec<ChainReport>)
        requires
            self.wf(),
        ensures
            reports_cover(reports@, self@.chain_stats),
    {
        let mut reports: Vec<ChainReport> = Vec::new();
        let mut i: usize = 0;
        while i < self.chain_stats.len()
            invariant
                self.wf(),
                i <= self@.chain_stats.len(),
                reports@.len() == i,
                forall|j: int|
                    0 <= j < i ==> (#[trigger] reports@[j]).is_for(self@.chain_stats[j]),
            decreases self@.chain_stats.len() - i,
        {
            reports.push(self.chain_stats.get(i).report());
            i += 1;
        }
        reports
    }
}

} // verus!
