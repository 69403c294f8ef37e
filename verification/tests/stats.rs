use block_timestamp_logger::clock::{UtcInstant, MAX_TIMESTAMP_SECS};
use block_timestamp_logger::stats::ChainStats;

fn recorded(deltas: &[i64]) -> ChainStats {
    let mut stats = ChainStats::new("Base");
    for delta in deltas {
        stats.record_delta(*delta);
    }
    stats
}

fn instant(secs: i64, nanos: u32) -> UtcInstant {
    UtcInstant::from_timestamp(secs, nanos).expect("representable instant")
}

#[test]
fn new_stats_are_empty() {
    let stats = ChainStats::new("Base");
    assert_eq!(stats.chain_name(), "Base");
    assert_eq!(stats.total_blocks(), 0);
    assert_eq!(stats.timestamp_past_blocks(), 0);
    assert_eq!(stats.timestamp_future_blocks(), 0);
    assert_eq!(stats.max_past_delta_ms(), 0);
    assert_eq!(stats.max_future_delta_ms(), 0);
    assert_eq!(stats.avg_time_delta_ms(), 0);
    assert!(stats.deltas().is_empty());
}

#[test]
fn default_stats_have_no_name() {
    let stats = ChainStats::default();
    assert_eq!(stats.chain_name(), "");
    assert_eq!(stats.total_blocks(), 0);
    assert!(stats.deltas().is_empty());
}

#[test]
fn total_is_past_plus_future_after_every_record() {
    let deltas: [i64; 9] = [5, -3, 0, 12, -7, 0, 1, i64::MAX, -i64::MAX];
    let mut stats = ChainStats::new("Optimism");
    let mut count = 0;
    for delta in deltas {
        stats.record_delta(delta);
        count += 1;
        assert_eq!(stats.total_blocks(), count);
        assert_eq!(
            stats.total_blocks(),
            stats.timestamp_past_blocks() + stats.timestamp_future_blocks()
        );
    }
    assert_eq!(stats.timestamp_past_blocks(), 4);
    assert_eq!(stats.timestamp_future_blocks(), 5);
}

#[test]
fn zero_delta_counts_as_future() {
    let stats = recorded(&[0]);
    assert_eq!(stats.total_blocks(), 1);
    assert_eq!(stats.timestamp_past_blocks(), 0);
    assert_eq!(stats.timestamp_future_blocks(), 1);
    assert_eq!(stats.max_past_delta_ms(), 0);
    assert_eq!(stats.max_future_delta_ms(), 0);
}

#[test]
fn one_millisecond_counts_as_past() {
    let stats = recorded(&[1]);
    assert_eq!(stats.timestamp_past_blocks(), 1);
    assert_eq!(stats.timestamp_future_blocks(), 0);
    assert_eq!(stats.max_past_delta_ms(), 1);
}

#[test]
fn minus_one_millisecond_counts_as_future() {
    let stats = recorded(&[-1]);
    assert_eq!(stats.timestamp_past_blocks(), 0);
    assert_eq!(stats.timestamp_future_blocks(), 1);
    assert_eq!(stats.max_future_delta_ms(), 1);
}

#[test]
fn mean_of_100_200_300_is_200() {
    let stats = recorded(&[100, 200, 300]);
    assert_eq!(stats.avg_time_delta_ms(), 200);
}

#[test]
fn mean_of_100_100_100_1_is_75() {
    let stats = recorded(&[100, 100, 100, 1]);
    assert_eq!(stats.avg_time_delta_ms(), 75);
}

#[test]
fn mean_rounds_towards_negative_infinity() {
    assert_eq!(recorded(&[-100, -100, -100, -1]).avg_time_delta_ms(), -76);
    assert_eq!(recorded(&[-1, -2]).avg_time_delta_ms(), -2);
    assert_eq!(recorded(&[-1, 0]).avg_time_delta_ms(), -1);
    assert_eq!(recorded(&[-4, -4]).avg_time_delta_ms(), -4);
    assert_eq!(recorded(&[-3, 1]).avg_time_delta_ms(), -1);
    assert_eq!(recorded(&[3, -1]).avg_time_delta_ms(), 1);
}

#[test]
fn mean_is_exact_at_the_ends_of_the_range() {
    assert_eq!(recorded(&[i64::MAX, i64::MAX, i64::MAX]).avg_time_delta_ms(), i64::MAX);
    assert_eq!(recorded(&[-i64::MAX, -i64::MAX]).avg_time_delta_ms(), -i64::MAX);
    assert_eq!(recorded(&[i64::MAX, -i64::MAX]).avg_time_delta_ms(), 0);
    assert_eq!(recorded(&[i64::MAX, i64::MAX - 1]).avg_time_delta_ms(), i64::MAX - 1);
}

#[test]
fn maxima_never_decrease() {
    let deltas: [i64; 10] = [10, 3, -4, 25, -1, 0, -30, 7, 26, -29];
    let mut stats = ChainStats::new("Unichain");
    let mut last_past = 0;
    let mut last_future = 0;
    for delta in deltas {
        stats.record_delta(delta);
        assert!(stats.max_past_delta_ms() >= last_past);
        assert!(stats.max_future_delta_ms() >= last_future);
        last_past = stats.max_past_delta_ms();
        last_future = stats.max_future_delta_ms();
    }
    assert_eq!(stats.max_past_delta_ms(), 26);
    assert_eq!(stats.max_future_delta_ms(), 30);
}

#[test]
fn maxima_track_each_class_only() {
    let stats = recorded(&[-50, 20]);
    assert_eq!(stats.max_past_delta_ms(), 20);
    assert_eq!(stats.max_future_delta_ms(), 50);
    let only_past = recorded(&[7, 9, 8]);
    assert_eq!(only_past.max_past_delta_ms(), 9);
    assert_eq!(only_past.max_future_delta_ms(), 0);
    let only_future = recorded(&[-7, -9, -8]);
    assert_eq!(only_future.max_past_delta_ms(), 0);
    assert_eq!(only_future.max_future_delta_ms(), 9);
}

#[test]
fn deltas_are_kept_in_order() {
    let stats = recorded(&[3, -1, 0, 42]);
    assert_eq!(stats.deltas(), &vec![3, -1, 0, 42]);
}

#[test]
fn clone_keeps_everything() {
    let stats = recorded(&[3, -1, 0, 42]);
    let copy = stats.clone();
    assert_eq!(copy.chain_name(), "Base");
    assert_eq!(copy.deltas(), stats.deltas());
    assert_eq!(copy.total_blocks(), 4);
    assert_eq!(copy.timestamp_past_blocks(), 2);
    assert_eq!(copy.timestamp_future_blocks(), 2);
    assert_eq!(copy.max_past_delta_ms(), 42);
    assert_eq!(copy.max_future_delta_ms(), 1);
    assert_eq!(copy.avg_time_delta_ms(), 11);
}

#[test]
fn update_records_observation_minus_block_time() {
    let mut stats = ChainStats::new("Base");
    stats.update(1_700_000_000, instant(1_700_000_001, 250_000_000));
    assert_eq!(stats.deltas(), &vec![1250]);
    assert_eq!(stats.timestamp_past_blocks(), 1);
    assert_eq!(stats.max_past_delta_ms(), 1250);
    stats.update(1_700_000_000, instant(1_699_999_999, 500_000_000));
    assert_eq!(stats.deltas(), &vec![1250, -500]);
    assert_eq!(stats.timestamp_future_blocks(), 1);
    assert_eq!(stats.max_future_delta_ms(), 500);
    assert_eq!(stats.avg_time_delta_ms(), 375);
}

#[test]
fn update_at_the_block_time_counts_as_future() {
    let mut stats = ChainStats::new("Base");
    stats.update(1_700_000_000, instant(1_700_000_000, 0));
    assert_eq!(stats.deltas(), &vec![0]);
    assert_eq!(stats.timestamp_future_blocks(), 1);
    assert_eq!(stats.timestamp_past_blocks(), 0);
}

#[test]
fn update_cuts_fractions_of_a_millisecond_towards_zero() {
    let mut stats = ChainStats::new("Base");
    stats.update(1_700_000_000, instant(1_700_000_000, 1_999_999));
    stats.update(1_700_000_000, instant(1_699_999_999, 998_500_000));
    stats.update(1_700_000_000, instant(1_700_000_000, 999_999));
    stats.update(1_700_000_000, instant(1_699_999_999, 999_000_001));
    stats.update(1_700_000_000, instant(1_699_999_999, 999_000_000));
    assert_eq!(stats.deltas(), &vec![1, -1, 0, 0, -1]);
    assert_eq!(stats.timestamp_past_blocks(), 1);
    assert_eq!(stats.timestamp_future_blocks(), 4);
}

#[test]
fn update_takes_the_latest_representable_second() {
    let mut stats = ChainStats::new("Base");
    stats.update(MAX_TIMESTAMP_SECS as u64, instant(MAX_TIMESTAMP_SECS, 0));
    stats.update(MAX_TIMESTAMP_SECS as u64, instant(0, 0));
    assert_eq!(stats.deltas(), &vec![0, -8_210_266_876_799_000]);
}

#[test]
fn update_with_fallback_uses_the_block_time_when_it_can() {
    let mut stats = ChainStats::new("Base");
    stats.update_with_fallback(100, instant(101, 0), instant(5, 0));
    assert_eq!(stats.deltas(), &vec![1000]);
}

#[test]
fn update_with_fallback_stands_in_for_a_stamp_out_of_range() {
    let mut stats = ChainStats::new("Base");
    stats.update_with_fallback(u64::MAX, instant(100, 0), instant(90, 0));
    let beyond = MAX_TIMESTAMP_SECS as u64 + 1;
    stats.update_with_fallback(beyond, instant(100, 0), instant(101, 500_000_000));
    stats.update_with_fallback(1 << 63, instant(100, 0), instant(100, 0));
    assert_eq!(stats.deltas(), &vec![10_000, -1500, 0]);
    assert_eq!(stats.total_blocks(), 3);
}

#[test]
fn update_with_a_stamp_out_of_range_still_counts() {
    let mut stats = ChainStats::new("Base");
    let now = chrono::Utc::now();
    let received = instant(now.timestamp(), now.timestamp_subsec_nanos());
    stats.update(u64::MAX, received);
    assert_eq!(stats.total_blocks(), 1);
    assert_eq!(stats.timestamp_future_blocks(), 1);
    let delta = stats.deltas()[0];
    assert!(delta <= 0);
    assert!(delta > -60_000);
}
