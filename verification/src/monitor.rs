//! The per-chain monitor: a cursor on the last height seen, the statistics
//! fed from every block found since, and the walk over the gap between the
//! cursor and the latest height that the chain reports.
//!
//! The monitor makes no call itself. Each step hands back the request to
//! send next, and takes the reply with the following step.

use vstd::prelude::*;

use crate::clock::{chrono_now, UtcInstant};
use crate::rpc::{
    block_header_of, get_block_by_number, get_block_number, latest_height_of, Block, BlockHeader,
    FetchError, JsonRpcRequest, JsonRpcResponse,
};
use crate::stats::{observed_delta_ms, ChainStats, ChainStatsView};

verus! {

/// A chain to monitor: its name for the reports and its RPC endpoint.
#[derive(Debug, PartialEq, Eq)]
pub struct ChainInfo {
    pub name: String,
    pub rpc_url: String,
}

/// A watched chain as plain text: its name and its endpoint.
pub struct ChainInfoView {
    pub name: Seq<char>,
    pub rpc_url: Seq<char>,
}

impl DeepView for ChainInfo {
    type V = ChainInfoView;

    open spec fn deep_view(&self) -> ChainInfoView {
        ChainInfoView { name: self.name@, rpc_url: self.rpc_url@ }
    }
}

/// A walk over a gap: the block at `height` has been asked for at
/// `requested_at`, and the walk ends with the block at `latest`.
#[derive(Clone, Copy, Debug, PartialEq, Eq, Structural)]
pub struct GapWalk {
    pub height: u64,
    pub latest: u64,
    pub requested_at: UtcInstant,
}

/// What a `GapWalk` stands for, its instant in nanoseconds since the epoch.
pub struct GapWalkView {
    pub height: u64,
    pub latest: u64,
    pub requested_at: int,
}

impl View for GapWalk {
    type V = GapWalkView;

    open spec fn view(&self) -> GapWalkView {
        GapWalkView { height: self.height, latest: self.latest, requested_at: self.requested_at@ }
    }
}

/// What happened in a step, for the log.
#[derive(Debug, PartialEq, Eq)]
pub enum PollNote {
    /// Nothing worth a line.
    Nothing,
    /// The first height seen: the cursor starts here, and no earlier block is
    /// fetched.
    Started { height: u64 },
    /// The latest height could not be had; the poll is given up until the
    /// next tick.
    PollAbandoned { error: FetchError },
    /// The block at `height` could not be fetched or read; the walk goes on
    /// without it.
    BlockSkipped { height: u64, error: FetchError },
    /// The block at `height` was recorded with this delta.
    BlockRecorded { height: u64, timestamp: u64, delta_ms: i64 },
    /// A block reply arrived while no block had been asked for; it was
    /// ignored.
    Unexpected,
}

/// What the caller does next.
#[derive(Debug, PartialEq, Eq)]
pub enum PollAction {
    /// Send this request for the latest height to the chain's endpoint and
    /// come back with the reply.
    FetchLatestBlock(JsonRpcRequest),
    /// Send this request for a block to the chain's endpoint and come back
    /// with the reply.
    FetchBlock(JsonRpcRequest),
    /// The poll is over; wait for the next tick.
    Done,
}

/// The outcome of a step.
#[derive(Debug, PartialEq, Eq)]
pub struct PollStep {
    pub note: PollNote,
    pub action: PollAction,
}

/// What the caller brings to a step.
#[derive(Debug)]
pub enum PollEvent {
    /// The poll timer fired.
    Tick,
    /// The reply to the request for the latest height.
    LatestBlock(Result<JsonRpcResponse<String>, FetchError>),
    /// The reply to the request for a block.
    BlockFetched(Result<JsonRpcResponse<Block>, FetchError>),
}

/// What a `ChainMonitor` stands for.
pub struct MonitorView {
    pub chain_name: Seq<char>,
    pub rpc_url: Seq<char>,
    pub last_block_number: Option<u64>,
    pub stats: ChainStatsView,
    pub request_id: u64,
    pub walk: Option<GapWalkView>,
}

impl MonitorView {
    /// A walk under way lies above the cursor: the cursor is set, the height
    /// asked for is beyond it, and the walk's last height is not below the
    /// height asked for.
    pub open spec fn walk_above_cursor(self) -> bool {
        self.walk matches Some(walk) ==> {
            &&& walk.height <= walk.latest
            &&& self.last_block_number matches Some(last_known)
            &&& last_known < walk.height
        }
    }

    /// The request id after this one; the counter wraps.
    pub open spec fn next_request_id(self) -> u64 {
        if self.request_id == u64::MAX {
            0
        } else {
            (self.request_id + 1) as u64
        }
    }

    /// The monitor once a poll has begun: any unfinished walk is dropped and
    /// one request id is used for the height request.
    pub open spec fn begin_poll(self) -> MonitorView {
        MonitorView { request_id: self.next_request_id(), walk: None, ..self }
    }

    /// The monitor once the latest height, or the failure to get it, is
    /// known at `now`. A failure changes nothing. A first height sets the
    /// cursor. A height above the cursor starts a walk at the block after the
    /// cursor, and uses one request id for it.
    pub open spec fn check_new_blocks(self, latest: Result<u64, FetchError>, now: int)
        -> MonitorView {
        match latest {
            Err(_) => MonitorView { walk: None, ..self },
            Ok(latest_block) => match self.last_block_number {
                None => MonitorView {
                    last_block_number: Some(latest_block),
                    walk: None,
                    ..self
                },
                Some(last_known) => if latest_block > last_known {
                    MonitorView {
                        request_id: self.next_request_id(),
                        walk: Some(
                            GapWalkView {
                                height: (last_known + 1) as u64,
                                latest: latest_block,
                                requested_at: now,
                            },
                        ),
                        ..self
                    }
                } else {
                    MonitorView { walk: None, ..self }
                },
            },
        }
    }

    /// The statistics once the block asked for at `requested_at` has come
    /// back, or has failed to, at `now`: a block that came back is recorded,
    /// a failure leaves them as they are.
    pub open spec fn stats_after_block(
        self,
        requested_at: int,
        block: Result<BlockHeader, FetchError>,
        now: int,
    ) -> ChainStatsView {
        match block {
            Ok(header) => ChainStats::recorded(
                self.stats,
                observed_delta_ms(header.timestamp, requested_at, now),
            ),
            Err(_) => self.stats,
        }
    }

    /// The monitor once the block that its walk asked for has come back, or
    /// has failed to, at `now`. Either way the walk moves to the next height,
    /// and after its last height the cursor moves to that height. With no
    /// walk under way nothing changes.
    pub open spec fn process_block(self, block: Result<BlockHeader, FetchError>, now: int)
        -> MonitorView {
        match self.walk {
            None => self,
            Some(walk) => {
                let stats = self.stats_after_block(walk.requested_at, block, now);
                if walk.height < walk.latest {
                    MonitorView {
                        stats,
                        request_id: self.next_request_id(),
                        walk: Some(
                            GapWalkView {
                                height: (walk.height + 1) as u64,
                                latest: walk.latest,
                                requested_at: now,
                            },
                        ),
                        ..self
                    }
                } else {
                    MonitorView {
                        stats,
                        last_block_number: Some(walk.latest),
                        walk: None,
                        ..self
                    }
                }
            },
        }
    }

    /// The monitor after the step that `event` causes at `now`.
    pub open spec fn step(self, event: PollEvent, now: int) -> MonitorView {
        match event {
            PollEvent::Tick => self.begin_poll(),
            PollEvent::LatestBlock(reply) => self.check_new_blocks(latest_height_of(reply), now),
            PollEvent::BlockFetched(reply) => self.process_block(block_header_of(reply), now),
        }
    }
}

/// One reply to a block request: the block or the failure, and the time, in
/// nanoseconds since the epoch, at which it came.
pub struct BlockReply {
    pub block: Result<BlockHeader, FetchError>,
    pub at: int,
}

impl MonitorView {
    /// The monitor after it has taken `replies`, one after the other, as the
    /// answers to its walk's block requests.
    pub open spec fn after_blocks(self, replies: Seq<BlockReply>) -> MonitorView
        decreases replies.len(),
    {
        if replies.len() == 0 {
            self
        } else {
            self.after_blocks(replies.drop_last()).process_block(
                replies.last().block,
                replies.last().at,
            )
        }
    }
}

/// Once set, the cursor never moves back: whatever the event, a step
/// leaves it where it was or moves it to a greater height, and a walk
/// under way stays above it.
pub proof fn lemma_cursor_never_decreases(pre: MonitorView, event: PollEvent, now: int)
    requires
        pre.walk_above_cursor(),
    ensures
        pre.step(event, now).walk_above_cursor(),
        pre.last_block_number matches Some(before) ==> pre.step(event, now).last_block_number
            matches Some(after) && after >= before,
{
}

/// A failure to get the latest height leaves cursor, statistics and request
/// counter exactly as they were.
pub proof fn lemma_failed_poll_changes_nothing(pre: MonitorView, error: FetchError, now: int)
    ensures
        pre.check_new_blocks(Err(error), now) == (MonitorView { walk: None, ..pre }),
{
}

/// The first height seen becomes the cursor, and nothing earlier is
/// fetched: no walk begins, and the statistics stay as they were.
pub proof fn lemma_first_height_sets_cursor(pre: MonitorView, latest_block: u64, now: int)
    requires
        pre.last_block_number is None,
    ensures
        pre.check_new_blocks(Ok(latest_block), now) == (MonitorView {
            last_block_number: Some(latest_block),
            walk: None,
            ..pre
        }),
{
}

/// A latest height above the cursor starts a walk at the height right after
/// the cursor that ends at the latest height; the cursor and the statistics
/// stay as they were until the walk is over.
pub proof fn lemma_gap_starts_after_cursor(pre: MonitorView, latest_block: u64, now: int)
    requires
        pre.last_block_number matches Some(last_known) && latest_block > last_known,
    ensures
        ({
            let post = pre.check_new_blocks(Ok(latest_block), now);
            &&& post.walk_above_cursor()
            &&& post.last_block_number == pre.last_block_number
            &&& post.stats == pre.stats
            &&& post.walk matches Some(walk)
            &&& walk.height == pre.last_block_number->0 + 1
            &&& walk.latest == latest_block
            &&& walk.requested_at == now
        }),
{
}

/// A walk visits every height of its gap once, in ascending order: after
/// `n` replies, whether blocks or failures, it asks for the height `n` above
/// the one it started with and the cursor has not moved; after the reply for
/// the last height the walk is over and the cursor is at that height. The
/// statistics only grow, at the end, by at most one delta per reply.
pub proof fn lemma_walk_visits_gap_in_order(pre: MonitorView, replies: Seq<BlockReply>)
    requires
        pre.walk_above_cursor(),
        pre.walk matches Some(walk) && replies.len() <= walk.latest - walk.height + 1,
    ensures
        ({
            let start = pre.walk->0;
            let post = pre.after_blocks(replies);
            &&& post.walk_above_cursor()
            &&& post.chain_name == pre.chain_name
            &&& post.stats.chain_name == pre.stats.chain_name
            &&& pre.stats.deltas.len() <= post.stats.deltas.len() <= pre.stats.deltas.len()
                + replies.len()
            &&& post.stats.deltas.take(pre.stats.deltas.len() as int) == pre.stats.deltas
            &&& replies.len() <= start.latest - start.height ==> {
                &&& post.last_block_number == pre.last_block_number
                &&& post.walk matches Some(walk)
                &&& walk.height == start.height + replies.len()
                &&& walk.latest == start.latest
            }
            &&& replies.len() == start.latest - start.height + 1 ==> {
                &&& post.last_block_number == Some(start.latest)
                &&& post.walk is None
            }
        }),
    decreases replies.len(),
{
    if replies.len() == 0 {
        assert(pre.stats.deltas.take(pre.stats.deltas.len() as int) =~= pre.stats.deltas);
    } else {
        let earlier = replies.drop_last();
        lemma_walk_visits_gap_in_order(pre, earlier);
        let mid = pre.after_blocks(earlier);
        let post = pre.after_blocks(replies);
        let kept = pre.stats.deltas.len() as int;
        assert(mid.stats.deltas.take(kept) == pre.stats.deltas);
        assert(post.stats.deltas.take(kept) =~= mid.stats.deltas.take(kept));
    }
}

/// The line that a reading of the latest height is worth, for a monitor
/// whose cursor was `last_block_number`.
pub open spec fn latest_note(last_block_number: Option<u64>, latest: Result<u64, FetchError>)
    -> PollNote {
    match latest {
        Err(error) => PollNote::PollAbandoned { error },
        Ok(latest_block) => match last_block_number {
            None => PollNote::Started { height: latest_block },
            Some(_) => PollNote::Nothing,
        },
    }
}

/// The line that the reply for the block at `walk.height` is worth.
pub open spec fn block_note(walk: GapWalkView, block: Result<BlockHeader, FetchError>, now: int)
    -> PollNote {
    match block {
        Err(error) => PollNote::BlockSkipped { height: walk.height, error },
        Ok(header) => PollNote::BlockRecorded {
            height: walk.height,
            timestamp: header.timestamp,
            delta_ms: observed_delta_ms(header.timestamp, walk.requested_at, now),
        },
    }
}

/// The line that the step caused by `event` is worth, for a monitor that
/// stood at `pre`.
pub open spec fn step_note(pre: MonitorView, event: PollEvent, now: int) -> PollNote {
    match event {
        PollEvent::Tick => PollNote::Nothing,
        PollEvent::LatestBlock(reply) => latest_note(
            pre.last_block_number,
            latest_height_of(reply),
        ),
        PollEvent::BlockFetched(reply) => match pre.walk {
            None => PollNote::Unexpected,
            Some(walk) => block_note(walk, block_header_of(reply), now),
        },
    }
}

/// The action fits a monitor that went from `pre` to `post` and has not
/// just begun a poll: with a walk under way it asks for the walk's block
/// under the request id that the step used, and else the poll is over.
pub open spec fn action_follows(pre: MonitorView, post: MonitorView, action: PollAction) -> bool {
    match post.walk {
        Some(walk) => action matches PollAction::FetchBlock(request) && request.is_block_by_number(
            pre.request_id,
            walk.height,
        ),
        None => action is Done,
    }
}

/// The action fits the step that `event` caused: a tick is answered with the
/// request for the latest height, under the request id that the step used,
/// and any other event as `action_follows` says.
pub open spec fn step_action_fits(
    pre: MonitorView,
    post: MonitorView,
    event: PollEvent,
    action: PollAction,
) -> bool {
    match event {
        PollEvent::Tick => action matches PollAction::FetchLatestBlock(request)
            && request.is_block_number(
            pre.request_id,
        ),
        _ => action_follows(pre, post, action),
    }
}

/// Monitors one chain for block timestamps.
#[derive(Debug)]
pub struct ChainMonitor {
    chain_info: ChainInfo,
    last_block_number: Option<u64>,
    stats: ChainStats,
    request_id: u64,
    walk: Option<GapWalk>,
}

impl View for ChainMonitor {
    type V = MonitorView;

    closed spec fn view(&self) -> MonitorView {
        MonitorView {
            chain_name: self.chain_info.name@,
            rpc_url: self.chain_info.rpc_url@,
            last_block_number: self.last_block_number,
            stats: self.stats@,
            request_id: self.request_id,
            walk: match self.walk {
                Some(walk) => Some(walk@),
                None => None,
            },
        }
    }
}

impl ChainMonitor {
    /// The statistics are sound and carry the chain's name, and a walk under
    /// way lies above the cursor.
    pub closed spec fn wf(&self) -> bool {
        &&& self.stats.wf()
        &&& self.stats@.chain_name == self.chain_info.name@
        &&& self.walk matches Some(walk) ==> {
            &&& walk.requested_at.wf()
            &&& walk.height <= walk.latest
            &&& self.last_block_number matches Some(last_known)
            &&& last_known < walk.height
        }
    }

    /// A sound monitor's walk lies above its cursor, and its statistics
    /// carry its chain's name.
    pub proof fn lemma_wf_view(&self)
        requires
            self.wf(),
        ensures
            self@.walk_above_cursor(),
            self@.stats.chain_name == self@.chain_name,
    {
    }

    /// A monitor for `chain_info` that has seen nothing yet.
    pub fn new(chain_info: ChainInfo) -> (monitor: Self)
        ensures
            monitor.wf(),
            monitor@ == (MonitorView {
                chain_name: chain_info.name@,
                rpc_url: chain_info.rpc_url@,
                last_block_number: None,
                stats: ChainStatsView { chain_name: chain_info.name@, deltas: Seq::empty() },
                request_id: 1,
                walk: None,
            }),
    {
        let stats = ChainStats::new(chain_info.name.as_str());
        ChainMonitor { chain_info, last_block_number: None, stats, request_id: 1, walk: None }
    }

    /// Takes the next request id.
    fn take_request_id(&mut self) -> (id: u64)
        ensures
            id == old(self).request_id,
            final(self).request_id == old(self)@.next_request_id(),
            final(self).chain_info == old(self).chain_info,
            final(self).last_block_number == old(self).last_block_number,
            final(self).stats == old(self).stats,
            final(self).walk == old(self).walk,
    {
        let id: u64 = self.request_id;
        self.request_id = id.wrapping_add(1);
        id
    }

    /// Begins a poll: hands back the request for the latest height. A walk
    /// left unfinished is dropped, its cursor where it was.
    pub fn begin_poll(&mut self) -> (step: PollStep)
        requires
            old(self).wf(),
        ensures
            final(self).wf(),
            final(self)@ == old(self)@.begin_poll(),
            step.note == PollNote::Nothing,
            step.action matches PollAction::FetchLatestBlock(request) && request.is_block_number(
                old(self)@.request_id,
            ),
    {
        let id: u64 = self.take_request_id();
        self.walk = None;
        PollStep {
            note: PollNote::Nothing,
            action: PollAction::FetchLatestBlock(JsonRpcRequest::block_number(id)),
        }
    }

    /// Takes the latest height, or the failure to get it, at the time `now`.
    ///
    /// A failure gives the poll up and leaves cursor and statistics as they
    /// were. The first height seen becomes the cursor, with no block fetched.
    /// A height above the cursor starts the walk over every height after the
    /// cursor up to it, in ascending order; the cursor moves when the walk
    /// ends.
    pub fn check_new_blocks(
        &mut self,
        latest: Result<u64, FetchError>,
        now: UtcInstant,
    ) -> (step: PollStep)
        requires
            old(self).wf(),
            now.wf(),
        ensures
            final(self).wf(),
            final(self)@ == old(self)@.check_new_blocks(latest, now@),
            step.note == latest_note(old(self)@.last_block_number, latest),
            action_follows(old(self)@, final(self)@, step.action),
            final(self)@.stats == old(self)@.stats,
            latest is Err ==> final(self)@.last_block_number == old(self)@.last_block_number,
    {
        match latest {
            Err(error) => {
                self.walk = None;
                PollStep { note: PollNote::PollAbandoned { error }, action: PollAction::Done }
            },
            Ok(latest_block) => match self.last_block_number {
                None => {
                    self.last_block_number = Some(latest_block);
                    self.walk = None;
                    PollStep {
                        note: PollNote::Started { height: latest_block },
                        action: PollAction::Done,
                    }
                },
                Some(last_known) => {
                    if latest_block > last_known {
                        let height: u64 = last_known + 1;
                        let id: u64 = self.take_request_id();
                        let request = JsonRpcRequest::block_by_number(id, height);
                        self.walk = Some(
                            GapWalk { height, latest: latest_block, requested_at: now },
                        );
                        PollStep { note: PollNote::Nothing, action: PollAction::FetchBlock(request) }
                    } else {
                        self.walk = None;
                        PollStep { note: PollNote::Nothing, action: PollAction::Done }
                    }
                },
            },
        }
    }

    /// Takes the block that the walk asked for, or the failure to get it, at
    /// the time `now`.
    ///
    /// A block is recorded with the time at which it was asked for as its
    /// observation time. A failure is noted and the block skipped. Then the
    /// walk asks for the next height; after the last one the cursor moves to
    /// the latest height, whether or not every block in the gap was had.
    pub fn process_block(
        &mut self,
        block: Result<BlockHeader, FetchError>,
        now: UtcInstant,
    ) -> (step: PollStep)
        requires
            old(self).wf(),
            now.wf(),
        ensures
            final(self).wf(),
            final(self)@ == old(self)@.process_block(block, now@),
            step.note == match old(self)@.walk {
                None => PollNote::Unexpected,
                Some(walk) => block_note(walk, block, now@),
            },
            action_follows(old(self)@, final(self)@, step.action),
    {
        match self.walk {
            None => PollStep { note: PollNote::Unexpected, action: PollAction::Done },
            Some(walk) => {
                let note = match block {
                    Err(error) => PollNote::BlockSkipped { height: walk.height, error },
                    Ok(header) => {
                        self.stats.update_with_fallback(header.timestamp, walk.requested_at, now);
                        let count: usize = self.stats.total_blocks();
                        let delta_ms: i64 = self.stats.deltas()[count - 1];
                        PollNote::BlockRecorded {
                            height: walk.height,
                            timestamp: header.timestamp,
                            delta_ms,
                        }
                    },
                };
                if walk.height < walk.latest {
                    let height: u64 = walk.height + 1;
                    let id: u64 = self.take_request_id();
                    self.walk = Some(GapWalk { height, latest: walk.latest, requested_at: now });
                    PollStep {
                        note,
                        action: PollAction::FetchBlock(JsonRpcRequest::block_by_number(id, height)),
                    }
                } else {
                    self.last_block_number = Some(walk.latest);
                    self.walk = None;
                    PollStep { note, action: PollAction::Done }
                }
            },
        }
    }

    /// Makes the step that `event` causes, at the time `now`.
    pub fn step_at(&mut self, event: PollEvent, now: UtcInstant) -> (step: PollStep)
        requires
            old(self).wf(),
            now.wf(),
        ensures
            final(self).wf(),
            final(self)@ == old(self)@.step(event, now@),
            step.note == step_note(old(self)@, event, now@),
            step_action_fits(old(self)@, final(self)@, event, step.action),
    {
        match event {
            PollEvent::Tick => self.begin_poll(),
            PollEvent::LatestBlock(reply) => self.check_new_blocks(get_block_number(reply), now),
            PollEvent::BlockFetched(reply) => self.process_block(get_block_by_number(reply), now),
        }
    }

    /// Makes the step that `event` causes, at the current time.
    pub fn step(&mut self, event: PollEvent) -> (step: PollStep)
        requires
            old(self).wf(),
        ensures
            final(self).wf(),
            exists|now: UtcInstant| #[trigger]
                now.wf() && final(self)@ == old(self)@.step(event, now@) && step.note == step_note(
                    old(self)@,
                    event,
                    now@,
                ),
            step_action_fits(old(self)@, final(self)@, event, step.action),
    {
        let now = chrono_now();
        let step = self.step_at(event, now);
        assert(now.wf() && self@ == old(self)@.step(event, now@) && step.note == step_note(
            old(self)@,
            event,
            now@,
        ));
        step
    }

    /// A copy of the statistics as they stand.
    pub fn get_stats(&self) -> (stats: ChainStats)
        requires
            self.wf(),
        ensures
            stats.wf(),
            stats@ == self@.stats,
    {
        self.stats.clone()
    }

    /// The chain that this monitor watches.
    pub fn chain_info(&self) -> (info: &ChainInfo)
        ensures
            info.name@ == self@.chain_name,
            info.rpc_url@ == self@.rpc_url,
    {
        &self.chain_info
    }

    /// The last height seen, if any.
    pub fn last_block_number(&self) -> (cursor: Option<u64>)
        ensures
            cursor == self@.last_block_number,
    {
        self.last_block_number
    }

    /// The walk under way, if any.
    pub fn walk(&self) -> (walk: Option<GapWalk>)
        ensures
            match walk {
                Some(walk) => self@.walk == Some(walk@),
                None => self@.walk is None,
            },
    {
        self.walk
    }
}

} // verus!
