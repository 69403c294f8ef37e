//! What a run is configured with: the output directory, the run's length,
//! the poll interval, and the chains to watch.
//!
//! Looking the values up is the caller's part; what a value, or its absence,
//! means is decided here.

use vstd::prelude::*;
use vstd::string::*;

use crate::monitor::{ChainInfo, ChainInfoView};
use crate::text::{parse_u64, parse_unsigned};

verus! {

/// Minutes that a run lasts unless told otherwise.
pub const DEFAULT_DURATION_MINUTES: u64 = 60;

/// Milliseconds between two polls unless told otherwise.
pub const DEFAULT_POLL_INTERVAL_MS: u64 = 500;

/// Seconds between two reports.
pub const REPORT_INTERVAL_SECS: u64 = 60;

/// The settings of one run.
#[derive(Debug)]
pub struct RunConfig {
    /// Directory that the reports are written to.
    pub output_dir: String,
    /// Length of the run in minutes; 0 for a run without end.
    pub duration_minutes: u64,
    /// Milliseconds between two polls.
    pub poll_interval_ms: u64,
}

/// Why a run cannot start.
#[derive(Clone, Copy, Debug, PartialEq, Eq, Structural)]
pub enum ConfigError {
    /// No chain has an endpoint.
    NoChains,
}

/// The number that a setting holds: its text read as an unsigned decimal
/// number, and `default` where the setting is absent or its text is no such
/// number.
pub open spec fn setting_or(value: Option<Seq<char>>, default: u64) -> u64 {
    match value {
        Some(text) => match parse_unsigned(text, 10) {
            Some(number) => number,
            None => default,
        },
        None => default,
    }
}

/// Reads a numeric setting from the text found for it, if any.
pub fn get_env_as_u64(value: Option<&str>, default: u64) -> (number: u64)
    ensures
        number == setting_or(
            match value {
                Some(text) => Some(text@),
                None => None,
            },
            default,
        ),
{
    match value {
        Some(text) => match parse_u64(text) {
            Some(number) => number,
            None => default,
        },
        None => default,
    }
}

/// The length of a run in seconds: none for 0 minutes, which asks for a run
/// without end, and else sixty times the minutes, held at `u64::MAX`.
pub open spec fn duration_limit_secs(duration_minutes: u64) -> Option<u64> {
    if duration_minutes == 0 {
        None
    } else if duration_minutes * 60 > u64::MAX {
        Some(u64::MAX)
    } else {
        Some((duration_minutes * 60) as u64)
    }
}

/// Whether a run that has lasted `elapsed_secs` seconds and
/// `elapsed_subsec_nanos` nanoseconds has lasted longer than `limit_secs`
/// seconds. A run without a limit never has.
pub open spec fn limit_exceeded(
    limit_secs: Option<u64>,
    elapsed_secs: u64,
    elapsed_subsec_nanos: u32,
) -> bool {
    match limit_secs {
        Some(limit) => elapsed_secs > limit || (elapsed_secs == limit && elapsed_subsec_nanos > 0),
        None => false,
    }
}

/// The chain called `name`, if an endpoint is given for it.
pub open spec fn chain_if_given(name: Seq<char>, rpc_url: Option<String>) -> Seq<ChainInfoView> {
    match rpc_url {
        Some(url) => seq![ChainInfoView { name, rpc_url: url@ }],
        None => Seq::empty(),
    }
}

/// The chains to watch: Optimism, Base and Unichain, in this order, each if
/// an endpoint is given for it.
pub open spec fn chains_given(
    op_rpc_url: Option<String>,
    base_rpc_url: Option<String>,
    uni_rpc_url: Option<String>,
) -> Seq<ChainInfoView> {
    chain_if_given("Optimism"@, op_rpc_url) + chain_if_given("Base"@, base_rpc_url)
        + chain_if_given("Unichain"@, uni_rpc_url)
}

impl RunConfig {
    /// The settings of a run, from the text found for each; a setting that
    /// is absent has its default, a number that cannot be read too.
    pub fn from_values(
        output_dir: Option<String>,
        duration_minutes: Option<&str>,
        poll_interval_ms: Option<&str>,
    ) -> (config: RunConfig)
        ensures
            config.output_dir@ == match output_dir {
                Some(dir) => dir@,
                None => "./logs"@,
            },
            config.duration_minutes == setting_or(
                match duration_minutes {
                    Some(text) => Some(text@),
                    None => None,
                },
                DEFAULT_DURATION_MINUTES,
            ),
            config.poll_interval_ms == setting_or(
                match poll_interval_ms {
                    Some(text) => Some(text@),
                    None => None,
                },
                DEFAULT_POLL_INTERVAL_MS,
            ),
    {
        let output_dir = match output_dir {
            Some(dir) => dir,
            None => String::from_str("./logs"),
        };
        RunConfig {
            output_dir,
            duration_minutes: get_env_as_u64(duration_minutes, DEFAULT_DURATION_MINUTES),
            poll_interval_ms: get_env_as_u64(poll_interval_ms, DEFAULT_POLL_INTERVAL_MS),
        }
    }

    /// The length of the run in seconds, if it has an end.
    pub fn duration_limit(&self) -> (limit: Option<u64>)
        ensures
            limit == duration_limit_secs(self.duration_minutes),
    {
        if self.duration_minutes == 0 {
            None
        } else if self.duration_minutes > u64::MAX / 60 {
            Some(u64::MAX)
        } else {
            Some(self.duration_minutes * 60)
        }
    }
}

/// Whether a run limited to `limit_secs` seconds, if at all, is over after
/// `elapsed_secs` seconds and `elapsed_subsec_nanos` nanoseconds.
pub fn duration_exceeded(
    limit_secs: Option<u64>,
    elapsed_secs: u64,
    elapsed_subsec_nanos: u32,
) -> (over: bool)
    ensures
        over == limit_exceeded(limit_secs, elapsed_secs, elapsed_subsec_nanos),
{
    match limit_secs {
        Some(limit) => elapsed_secs > limit || (elapsed_secs == limit && elapsed_subsec_nanos > 0),
        None => false,
    }
}

/// The chains to watch, from the endpoint found for each of Optimism, Base
/// and Unichain. A run needs at least one.
pub fn select_chains(
    op_rpc_url: Option<String>,
    base_rpc_url: Option<String>,
    uni_rpc_url: Option<String>,
) -> (chains: Result<Vec<ChainInfo>, ConfigError>)
    ensures
        chains is Err <==> op_rpc_url is None && base_rpc_url is None && uni_rpc_url is None,
        chains matches Ok(list) ==> list.deep_view() == chains_given(
            op_rpc_url,
            base_rpc_url,
            uni_rpc_url,
        ),
{
    let mut list: Vec<ChainInfo> = Vec::new();
    assert(list.deep_view() =~= Seq::empty());
    if let Some(url) = op_rpc_url {
        list.push(ChainInfo { name: String::from_str("Optimism"), rpc_url: url });
    }
    assert(list.deep_view() =~= chain_if_given("Optimism"@, op_rpc_url));
    if let Some(url) = base_rpc_url {
        list.push(ChainInfo { name: String::from_str("Base"), rpc_url: url });
    }
    assert(list.deep_view() =~= chain_if_given("Optimism"@, op_rpc_url) + chain_if_given(
        "Base"@,
        base_rpc_url,
    ));
    if let Some(url) = uni_rpc_url {
        list.push(ChainInfo { name: String::from_str("Unichain"), rpc_url: url });
    }
    assert(list.deep_view() =~= chains_given(op_rpc_url, base_rpc_url, uni_rpc_url));
    if list.len() == 0 {
        Err(ConfigError::NoChains)
    } else {
        Ok(list)
    }
}

} // verus!
