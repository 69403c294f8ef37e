use block_timestamp_logger::clock::UtcInstant;
use block_timestamp_logger::monitor::{
    ChainInfo, ChainMonitor, GapWalk, PollAction, PollEvent, PollNote, PollStep,
};
use block_timestamp_logger::rpc::{
    Block, BlockHeader, FetchError, JsonRpcError, JsonRpcRequest, JsonRpcResponse,
    ProtocolFailure,
};

fn base() -> ChainMonitor {
    ChainMonitor::new(ChainInfo {
        name: "Base".to_string(),
        rpc_url: "http://localhost:8545".to_string(),
    })
}

fn at(secs: i64) -> UtcInstant {
    UtcInstant::from_timestamp(secs, 0).unwrap()
}

fn header(number: u64, timestamp: u64) -> BlockHeader {
    BlockHeader { number, timestamp }
}

fn transport(detail: &str) -> FetchError {
    FetchError::TransportFailure(detail.to_string())
}

fn fetch_block(id: u64, height: u64) -> PollAction {
    PollAction::FetchBlock(JsonRpcRequest::block_by_number(id, height))
}

fn monitor_at(cursor: u64) -> ChainMonitor {
    let mut monitor = base();
    monitor.begin_poll();
    monitor.check_new_blocks(Ok(cursor), at(0));
    monitor
}

#[test]
fn new_monitor_has_seen_nothing() {
    let monitor = base();
    assert_eq!(monitor.last_block_number(), None);
    assert_eq!(monitor.chain_info().name, "Base");
    assert_eq!(monitor.chain_info().rpc_url, "http://localhost:8545");
    let stats = monitor.get_stats();
    assert_eq!(stats.chain_name(), "Base");
    assert_eq!(stats.total_blocks(), 0);
}

#[test]
fn poll_begins_with_the_request_for_the_latest_height() {
    let mut monitor = base();
    let step = monitor.begin_poll();
    assert_eq!(
        step,
        PollStep {
            note: PollNote::Nothing,
            action: PollAction::FetchLatestBlock(JsonRpcRequest::block_number(1)),
        }
    );
    let again = monitor.begin_poll();
    assert_eq!(again.action, PollAction::FetchLatestBlock(JsonRpcRequest::block_number(2)));
}

#[test]
fn first_height_sets_the_cursor_without_backfill() {
    let mut monitor = base();
    monitor.begin_poll();
    let step = monitor.check_new_blocks(Ok(1000), at(50));
    assert_eq!(
        step,
        PollStep { note: PollNote::Started { height: 1000 }, action: PollAction::Done }
    );
    assert_eq!(monitor.last_block_number(), Some(1000));
    assert_eq!(monitor.get_stats().total_blocks(), 0);
}

#[test]
fn gap_of_three_is_walked_in_ascending_order() {
    let mut monitor = monitor_at(1000);
    monitor.begin_poll();
    let first = monitor.check_new_blocks(Ok(1003), at(2000));
    assert_eq!(first, PollStep { note: PollNote::Nothing, action: fetch_block(3, 1001) });
    assert_eq!(monitor.last_block_number(), Some(1000));
    assert_eq!(
        monitor.walk(),
        Some(GapWalk { height: 1001, latest: 1003, requested_at: at(2000) })
    );

    let second = monitor.process_block(Ok(header(1001, 1990)), at(2001));
    assert_eq!(
        second,
        PollStep {
            note: PollNote::BlockRecorded { height: 1001, timestamp: 1990, delta_ms: 10_000 },
            action: fetch_block(4, 1002),
        }
    );
    assert_eq!(monitor.last_block_number(), Some(1000));

    let third = monitor.process_block(Ok(header(1002, 1995)), at(2002));
    assert_eq!(
        third,
        PollStep {
            note: PollNote::BlockRecorded { height: 1002, timestamp: 1995, delta_ms: 6_000 },
            action: fetch_block(5, 1003),
        }
    );
    assert_eq!(monitor.last_block_number(), Some(1000));

    let last = monitor.process_block(Ok(header(1003, 2005)), at(2003));
    assert_eq!(
        last,
        PollStep {
            note: PollNote::BlockRecorded { height: 1003, timestamp: 2005, delta_ms: -3_000 },
            action: PollAction::Done,
        }
    );
    assert_eq!(monitor.last_block_number(), Some(1003));
    assert_eq!(monitor.walk(), None);

    let stats = monitor.get_stats();
    assert_eq!(stats.deltas(), &vec![10_000, 6_000, -3_000]);
    assert_eq!(stats.total_blocks(), 3);
    assert_eq!(stats.timestamp_past_blocks(), 2);
    assert_eq!(stats.timestamp_future_blocks(), 1);
}

#[test]
fn block_is_observed_when_it_was_asked_for() {
    let mut monitor = monitor_at(10);
    monitor.begin_poll();
    monitor.check_new_blocks(Ok(11), UtcInstant::from_timestamp(500, 250_000_000).unwrap());
    monitor.process_block(Ok(header(11, 499)), at(900));
    assert_eq!(monitor.get_stats().deltas(), &vec![1250]);
}

#[test]
fn failed_latest_height_changes_nothing() {
    let mut monitor = monitor_at(1000);
    monitor.begin_poll();
    monitor.check_new_blocks(Ok(1001), at(10));
    monitor.process_block(Ok(header(1001, 5)), at(11));
    let deltas_before = monitor.get_stats().deltas().clone();

    monitor.begin_poll();
    let step = monitor.check_new_blocks(Err(transport("connection refused")), at(20));
    assert_eq!(
        step,
        PollStep {
            note: PollNote::PollAbandoned { error: transport("connection refused") },
            action: PollAction::Done,
        }
    );
    assert_eq!(monitor.last_block_number(), Some(1001));
    let stats = monitor.get_stats();
    assert_eq!(stats.deltas(), &deltas_before);
    assert_eq!(stats.total_blocks(), 1);
    assert_eq!(stats.max_past_delta_ms(), 5000);
    assert_eq!(stats.avg_time_delta_ms(), 5000);
}

#[test]
fn failed_latest_height_leaves_an_unset_cursor_unset() {
    let mut monitor = base();
    monitor.begin_poll();
    let step = monitor.check_new_blocks(
        Err(FetchError::ProtocolFailure(ProtocolFailure::MissingResult)),
        at(20),
    );
    assert_eq!(step.action, PollAction::Done);
    assert_eq!(monitor.last_block_number(), None);
    assert_eq!(monitor.get_stats().total_blocks(), 0);
    monitor.begin_poll();
    let next = monitor.check_new_blocks(Ok(7), at(21));
    assert_eq!(next.note, PollNote::Started { height: 7 });
    assert_eq!(monitor.last_block_number(), Some(7));
}

#[test]
fn height_at_or_below_the_cursor_ends_the_poll() {
    let mut monitor = monitor_at(1000);
    monitor.begin_poll();
    let same = monitor.check_new_blocks(Ok(1000), at(1));
    assert_eq!(same, PollStep { note: PollNote::Nothing, action: PollAction::Done });
    monitor.begin_poll();
    let lower = monitor.check_new_blocks(Ok(990), at(2));
    assert_eq!(lower, PollStep { note: PollNote::Nothing, action: PollAction::Done });
    assert_eq!(monitor.last_block_number(), Some(1000));
    assert_eq!(monitor.get_stats().total_blocks(), 0);
}

#[test]
fn failed_block_is_skipped_and_the_cursor_still_advances() {
    let mut monitor = monitor_at(1000);
    monitor.begin_poll();
    monitor.check_new_blocks(Ok(1003), at(100));
    monitor.process_block(Ok(header(1001, 99)), at(101));
    let skipped = monitor.process_block(Err(transport("timeout")), at(102));
    assert_eq!(
        skipped,
        PollStep {
            note: PollNote::BlockSkipped { height: 1002, error: transport("timeout") },
            action: fetch_block(5, 1003),
        }
    );
    assert_eq!(monitor.last_block_number(), Some(1000));
    let last = monitor.process_block(Ok(header(1003, 100)), at(103));
    assert_eq!(last.action, PollAction::Done);
    assert_eq!(monitor.last_block_number(), Some(1003));
    assert_eq!(monitor.get_stats().deltas(), &vec![1000, 2000]);

    monitor.begin_poll();
    let next = monitor.check_new_blocks(Ok(1004), at(200));
    assert_eq!(next.action, fetch_block(7, 1004));
}

#[test]
fn failure_on_the_last_block_still_ends_the_walk() {
    let mut monitor = monitor_at(5);
    monitor.begin_poll();
    monitor.check_new_blocks(Ok(6), at(100));
    let step = monitor.process_block(
        Err(FetchError::ProtocolFailure(ProtocolFailure::InvalidHex("0xzz".to_string()))),
        at(101),
    );
    assert_eq!(step.action, PollAction::Done);
    assert_eq!(monitor.last_block_number(), Some(6));
    assert_eq!(monitor.get_stats().total_blocks(), 0);
}

#[test]
fn block_reply_without_a_walk_is_ignored() {
    let mut monitor = monitor_at(1000);
    let step = monitor.process_block(Ok(header(1001, 5)), at(10));
    assert_eq!(step, PollStep { note: PollNote::Unexpected, action: PollAction::Done });
    assert_eq!(monitor.last_block_number(), Some(1000));
    assert_eq!(monitor.get_stats().total_blocks(), 0);
}

#[test]
fn tick_during_a_walk_starts_over() {
    let mut monitor = monitor_at(1000);
    monitor.begin_poll();
    monitor.check_new_blocks(Ok(1002), at(10));
    monitor.process_block(Ok(header(1001, 9)), at(11));
    let step = monitor.begin_poll();
    assert_eq!(step.action, PollAction::FetchLatestBlock(JsonRpcRequest::block_number(5)));
    assert_eq!(monitor.last_block_number(), Some(1000));
    let ignored = monitor.process_block(Ok(header(1002, 9)), at(12));
    assert_eq!(ignored.note, PollNote::Unexpected);
    assert_eq!(monitor.get_stats().deltas(), &vec![1000]);
}

#[test]
fn gap_of_one_up_to_the_last_height() {
    let mut monitor = monitor_at(u64::MAX - 1);
    monitor.begin_poll();
    let step = monitor.check_new_blocks(Ok(u64::MAX), at(10));
    assert_eq!(step.action, fetch_block(3, u64::MAX));
    let last = monitor.process_block(Ok(header(u64::MAX, 10)), at(11));
    assert_eq!(last.action, PollAction::Done);
    assert_eq!(monitor.last_block_number(), Some(u64::MAX));
}

#[test]
fn block_with_a_stamp_out_of_range_is_measured_against_the_time_of_its_reply() {
    let mut monitor = monitor_at(1);
    monitor.begin_poll();
    monitor.check_new_blocks(Ok(2), at(100));
    let step = monitor.process_block(Ok(header(2, u64::MAX)), at(103));
    assert_eq!(
        step.note,
        PollNote::BlockRecorded { height: 2, timestamp: u64::MAX, delta_ms: -3000 }
    );
    assert_eq!(monitor.get_stats().deltas(), &vec![-3000]);
}

#[test]
fn step_at_reads_the_replies() {
    let mut monitor = base();
    let begun = monitor.step_at(PollEvent::Tick, at(0));
    assert_eq!(begun.action, PollAction::FetchLatestBlock(JsonRpcRequest::block_number(1)));
    let started = monitor.step_at(
        PollEvent::LatestBlock(Ok(JsonRpcResponse {
            jsonrpc: "2.0".to_string(),
            id: 1,
            result: Some("0x3e8".to_string()),
            error: None,
        })),
        at(1),
    );
    assert_eq!(started.note, PollNote::Started { height: 1000 });
    monitor.step_at(PollEvent::Tick, at(2));
    let walking = monitor.step_at(
        PollEvent::LatestBlock(Ok(JsonRpcResponse {
            jsonrpc: "2.0".to_string(),
            id: 2,
            result: Some("0x3e9".to_string()),
            error: None,
        })),
        at(1_705_031_108),
    );
    assert_eq!(walking.action, fetch_block(3, 1001));
    let done = monitor.step_at(
        PollEvent::BlockFetched(Ok(JsonRpcResponse {
            jsonrpc: "2.0".to_string(),
            id: 3,
            result: Some(Block {
                number: "0x3e9".to_string(),
                timestamp: "0x65a0b5c3".to_string(),
            }),
            error: None,
        })),
        at(1_705_031_109),
    );
    assert_eq!(
        done,
        PollStep {
            note: PollNote::BlockRecorded {
                height: 1001,
                timestamp: 1_705_031_107,
                delta_ms: 1000,
            },
            action: PollAction::Done,
        }
    );
    assert_eq!(monitor.last_block_number(), Some(1001));
}

#[test]
fn step_at_turns_a_bad_reply_into_a_failure() {
    let mut monitor = base();
    monitor.step_at(PollEvent::Tick, at(0));
    let abandoned = monitor.step_at(
        PollEvent::LatestBlock(Ok(JsonRpcResponse {
            jsonrpc: "2.0".to_string(),
            id: 1,
            result: None,
            error: Some(JsonRpcError { code: -32005, message: "limit exceeded".to_string() }),
        })),
        at(1),
    );
    assert_eq!(
        abandoned.note,
        PollNote::PollAbandoned {
            error: FetchError::ProtocolFailure(ProtocolFailure::RpcError(JsonRpcError {
                code: -32005,
                message: "limit exceeded".to_string(),
            })),
        }
    );
    assert_eq!(abandoned.action, PollAction::Done);
    assert_eq!(monitor.last_block_number(), None);
}

#[test]
fn step_uses_the_current_time() {
    let mut monitor = base();
    monitor.step(PollEvent::Tick);
    monitor.step(PollEvent::LatestBlock(Ok(JsonRpcResponse {
        jsonrpc: "2.0".to_string(),
        id: 1,
        result: Some("0x1".to_string()),
        error: None,
    })));
    monitor.step(PollEvent::Tick);
    let before = chrono::Utc::now().timestamp();
    let walking = monitor.step(PollEvent::LatestBlock(Ok(JsonRpcResponse {
        jsonrpc: "2.0".to_string(),
        id: 2,
        result: Some("0x2".to_string()),
        error: None,
    })));
    assert_eq!(walking.action, fetch_block(3, 2));
    let done = monitor.step(PollEvent::BlockFetched(Ok(JsonRpcResponse {
        jsonrpc: "2.0".to_string(),
        id: 3,
        result: Some(Block {
            number: "0x2".to_string(),
            timestamp: format!("0x{:x}", before - 10),
        }),
        error: None,
    })));
    assert_eq!(done.action, PollAction::Done);
    let stats = monitor.get_stats();
    assert_eq!(stats.total_blocks(), 1);
    assert_eq!(stats.timestamp_past_blocks(), 1);
    let delta = stats.deltas()[0];
    assert!(delta >= 10_000);
    assert!(delta < 70_000);
}

#[test]
fn request_ids_count_up() {
    let mut monitor = base();
    let mut last = 0;
    for _ in 0..3 {
        match monitor.begin_poll().action {
            PollAction::FetchLatestBlock(request) => last = request.id,
            _ => panic!("a poll begins with a request"),
        }
    }
    assert_eq!(last, 3);
}
