use block_timestamp_logger::clock::UtcInstant;
use block_timestamp_logger::config::ConfigError;
use block_timestamp_logger::monitor::{ChainInfo, PollAction, PollEvent, PollNote};
use block_timestamp_logger::orchestrator::{ChainStatsMap, Orchestrator, RunAction, RunEvent};
use block_timestamp_logger::rpc::{
    Block, FetchError, JsonRpcRequest, JsonRpcResponse,
};
use block_timestamp_logger::stats::ChainStats;

fn info(name: &str) -> ChainInfo {
    ChainInfo { name: name.to_string(), rpc_url: format!("http://{}", name) }
}

fn now(secs: i64) -> UtcInstant {
    UtcInstant::from_timestamp(secs, 0).unwrap()
}

fn latest(height: u64) -> PollEvent {
    PollEvent::LatestBlock(Ok(JsonRpcResponse {
        jsonrpc: "2.0".to_string(),
        id: 0,
        result: Some(format!("0x{:x}", height)),
        error: None,
    }))
}

fn fetched(height: u64, timestamp: u64) -> PollEvent {
    PollEvent::BlockFetched(Ok(JsonRpcResponse {
        jsonrpc: "2.0".to_string(),
        id: 0,
        result: Some(Block {
            number: format!("0x{:x}", height),
            timestamp: format!("0x{:x}", timestamp),
        }),
        error: None,
    }))
}

fn unreachable_endpoint() -> PollEvent {
    PollEvent::LatestBlock(Err(FetchError::TransportFailure("unreachable".to_string())))
}

fn names(map: &ChainStatsMap) -> Vec<String> {
    (0..map.len()).map(|i| map.get(i).chain_name().clone()).collect()
}

fn with_deltas(name: &str, deltas: &[i64]) -> ChainStats {
    let mut stats = ChainStats::new(name);
    for delta in deltas {
        stats.record_delta(*delta);
    }
    stats
}

#[test]
fn run_needs_a_chain() {
    assert_eq!(Orchestrator::new(Vec::new(), Some(60)).err(), Some(ConfigError::NoChains));
}

#[test]
fn run_has_one_monitor_per_chain_in_order() {
    let chains = vec![info("Optimism"), info("Base"), info("Unichain")];
    let run = Orchestrator::new(chains, None).unwrap();
    assert_eq!(run.monitor_count(), 3);
    assert_eq!(run.monitor(0).chain_info(), &info("Optimism"));
    assert_eq!(run.monitor(1).chain_info(), &info("Base"));
    assert_eq!(run.monitor(2).chain_info(), &info("Unichain"));
    assert_eq!(run.monitor(1).last_block_number(), None);
    assert_eq!(run.chain_stats().len(), 0);
    assert!(run.reports().is_empty());
}

#[test]
fn snapshot_is_taken_when_a_poll_ends() {
    let mut run = Orchestrator::new(vec![info("Optimism"), info("Base")], None).unwrap();
    let begun = run.poll_step_at(1, PollEvent::Tick, now(0));
    assert_eq!(begun.action, PollAction::FetchLatestBlock(JsonRpcRequest::block_number(1)));
    assert_eq!(run.chain_stats().len(), 0);
    let started = run.poll_step_at(1, latest(1000), now(1));
    assert_eq!(started.note, PollNote::Started { height: 1000 });
    assert_eq!(started.action, PollAction::Done);
    assert_eq!(names(run.chain_stats()), vec!["Base".to_string()]);
    assert_eq!(run.chain_stats().get(0).total_blocks(), 0);
    assert_eq!(run.monitor(1).last_block_number(), Some(1000));
    assert_eq!(run.monitor(0).last_block_number(), None);
}

#[test]
fn snapshot_is_replaced_after_each_poll() {
    let mut run = Orchestrator::new(vec![info("Optimism"), info("Base")], None).unwrap();
    for index in [0, 1] {
        run.poll_step_at(index, PollEvent::Tick, now(0));
        run.poll_step_at(index, latest(10), now(1));
    }
    assert_eq!(names(run.chain_stats()), vec!["Optimism".to_string(), "Base".to_string()]);

    run.poll_step_at(0, PollEvent::Tick, now(100));
    let walking = run.poll_step_at(0, latest(12), now(100));
    assert_eq!(walking.action, PollAction::FetchBlock(JsonRpcRequest::block_by_number(3, 11)));
    assert_eq!(run.chain_stats().get(0).total_blocks(), 0);
    run.poll_step_at(0, fetched(11, 98), now(101));
    assert_eq!(run.chain_stats().get(0).total_blocks(), 0);
    let done = run.poll_step_at(0, fetched(12, 99), now(102));
    assert_eq!(done.action, PollAction::Done);

    assert_eq!(names(run.chain_stats()), vec!["Optimism".to_string(), "Base".to_string()]);
    assert_eq!(run.chain_stats().get(0).deltas(), &vec![2000, 2000]);
    assert_eq!(run.chain_stats().get(1).total_blocks(), 0);
    assert_eq!(run.monitor(0).last_block_number(), Some(12));
    assert_eq!(run.monitor(1).last_block_number(), Some(10));
}

#[test]
fn snapshot_is_taken_after_a_failed_poll_too() {
    let mut run = Orchestrator::new(vec![info("Base")], None).unwrap();
    run.poll_step_at(0, PollEvent::Tick, now(0));
    let step = run.poll_step_at(0, unreachable_endpoint(), now(1));
    assert_eq!(step.action, PollAction::Done);
    assert_eq!(names(run.chain_stats()), vec!["Base".to_string()]);
    assert_eq!(run.monitor(0).last_block_number(), None);
}

#[test]
fn reports_and_summaries_follow_the_snapshots() {
    let mut run = Orchestrator::new(vec![info("Optimism"), info("Base")], None).unwrap();
    run.poll_step_at(1, PollEvent::Tick, now(0));
    run.poll_step_at(1, latest(5), now(0));
    run.poll_step_at(1, PollEvent::Tick, now(50));
    run.poll_step_at(1, latest(6), now(50));
    run.poll_step_at(1, fetched(6, 49), now(51));
    run.poll_step_at(0, PollEvent::Tick, now(60));
    run.poll_step_at(0, unreachable_endpoint(), now(61));

    let reports = run.reports();
    assert_eq!(reports.len(), 2);
    assert_eq!(reports[0].summary.chain_name, "Base");
    assert_eq!(reports[0].summary.total_blocks, 1);
    assert_eq!(reports[0].summary.avg_time_delta_ms, 1000);
    assert_eq!(reports[0].files.stats.file_name, "Base_stats.csv");
    assert_eq!(reports[0].files.deltas.records.len(), 2);
    assert_eq!(reports[0].files.deltas.records[1], vec!["1000".to_string()]);
    assert_eq!(reports[1].summary.chain_name, "Optimism");
    assert_eq!(reports[1].summary.total_blocks, 0);
    assert_eq!(reports[1].files.stats.file_name, "Optimism_stats.csv");
    assert_eq!(reports[1].files.deltas.records.len(), 1);
}

#[test]
fn report_tick_reports_every_snapshot() {
    let mut run = Orchestrator::new(vec![info("Optimism"), info("Base")], Some(60)).unwrap();
    match run.on_event(RunEvent::ReportTick) {
        RunAction::Report(reports) => assert!(reports.is_empty()),
        other => panic!("a report tick asks for a report, not {:?}", other),
    }
    for index in [0, 1] {
        run.poll_step_at(index, PollEvent::Tick, now(0));
        run.poll_step_at(index, latest(10), now(1));
    }
    match run.on_event(RunEvent::ReportTick) {
        RunAction::Report(reports) => {
            assert_eq!(reports.len(), 2);
            assert_eq!(reports[0].summary, run.chain_stats().get(0).summary());
            assert_eq!(reports[1].summary.chain_name, "Base");
            assert_eq!(reports[1].files.deltas.file_name, "Base_deltas.csv");
        }
        other => panic!("a report tick asks for a report, not {:?}", other),
    }
}

#[test]
fn poll_cycle_goes_on_until_the_limit_is_exceeded() {
    let mut run = Orchestrator::new(vec![info("Base")], Some(60)).unwrap();
    run.poll_step_at(0, PollEvent::Tick, now(0));
    run.poll_step_at(0, latest(10), now(1));
    let early = RunEvent::PollCycleDone { elapsed_secs: 59, elapsed_subsec_nanos: 999_999_999 };
    assert!(matches!(run.on_event(early), RunAction::Continue));
    let at_limit = RunEvent::PollCycleDone { elapsed_secs: 60, elapsed_subsec_nanos: 0 };
    assert!(matches!(run.on_event(at_limit), RunAction::Continue));
    let late = RunEvent::PollCycleDone { elapsed_secs: 60, elapsed_subsec_nanos: 1 };
    match run.on_event(late) {
        RunAction::Shutdown(reports) => {
            assert_eq!(reports.len(), 1);
            assert_eq!(reports[0].summary.chain_name, "Base");
            assert_eq!(reports[0].files.stats.records.len(), 2);
        }
        other => panic!("the run is over, yet {:?}", other),
    }
}

#[test]
fn poll_cycle_of_a_run_without_limit_always_goes_on() {
    let run = Orchestrator::new(vec![info("Base")], None).unwrap();
    let late = RunEvent::PollCycleDone { elapsed_secs: u64::MAX, elapsed_subsec_nanos: 999_999_999 };
    assert!(matches!(run.on_event(late), RunAction::Continue));
}

#[test]
fn poll_step_uses_the_current_time() {
    let mut run = Orchestrator::new(vec![info("Base")], None).unwrap();
    run.poll_step(0, PollEvent::Tick);
    run.poll_step(0, latest(5));
    run.poll_step(0, PollEvent::Tick);
    let walking = run.poll_step(0, latest(6));
    assert_eq!(walking.action, PollAction::FetchBlock(JsonRpcRequest::block_by_number(3, 6)));
    let stamp = (chrono::Utc::now().timestamp() + 100) as u64;
    let done = run.poll_step(0, fetched(6, stamp));
    assert_eq!(done.action, PollAction::Done);
    let snapshot = run.chain_stats().get(0);
    assert_eq!(snapshot.timestamp_future_blocks(), 1);
    assert!(snapshot.max_future_delta_ms() > 30_000);
    assert!(snapshot.max_future_delta_ms() <= 101_000);
}

#[test]
fn run_stops_after_its_limit() {
    let run = Orchestrator::new(vec![info("Base")], Some(3600)).unwrap();
    assert!(!run.should_stop(0, 0));
    assert!(!run.should_stop(3600, 0));
    assert!(run.should_stop(3600, 1));
    assert!(run.should_stop(3601, 0));
    let endless = Orchestrator::new(vec![info("Base")], None).unwrap();
    assert!(!endless.should_stop(u64::MAX, 999_999_999));
}

#[test]
fn map_keeps_one_snapshot_per_name() {
    let mut map = ChainStatsMap::new();
    assert_eq!(map.len(), 0);
    map.insert(with_deltas("Optimism", &[1]));
    map.insert(with_deltas("Base", &[2]));
    map.insert(with_deltas("Unichain", &[3]));
    map.insert(with_deltas("Base", &[2, 20]));
    map.insert(with_deltas("Optimism", &[1, 10, 100]));
    assert_eq!(map.len(), 3);
    assert_eq!(
        names(&map),
        vec!["Optimism".to_string(), "Base".to_string(), "Unichain".to_string()]
    );
    assert_eq!(map.get(0).deltas(), &vec![1, 10, 100]);
    assert_eq!(map.get(1).deltas(), &vec![2, 20]);
    assert_eq!(map.get(2).deltas(), &vec![3]);
}

#[test]
fn chains_with_one_name_share_a_snapshot() {
    let mut run = Orchestrator::new(vec![info("Base"), info("Base")], None).unwrap();
    run.poll_step_at(0, PollEvent::Tick, now(0));
    run.poll_step_at(0, latest(5), now(0));
    run.poll_step_at(0, PollEvent::Tick, now(10));
    run.poll_step_at(0, latest(6), now(10));
    run.poll_step_at(0, fetched(6, 9), now(11));
    assert_eq!(run.chain_stats().len(), 1);
    assert_eq!(run.chain_stats().get(0).total_blocks(), 1);
    run.poll_step_at(1, PollEvent::Tick, now(20));
    run.poll_step_at(1, latest(9), now(20));
    assert_eq!(run.chain_stats().len(), 1);
    assert_eq!(run.chain_stats().get(0).total_blocks(), 0);
}
