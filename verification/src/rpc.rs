//! The JSON-RPC exchange with a chain's endpoint, as plain values: the two
//! requests the monitor makes, the response envelope, and how a response is
//! read into a height or a block header.
//!
//! Sending a request and decoding a response body are the caller's part; what
//! a decoded response means is decided here.

use vstd::prelude::*;
use vstd::string::*;

use crate::text::{format_hex, hex_quantity, parse_hex_quantity, parse_hex_u64};

verus! {

/// One positional parameter of a request.
#[derive(Debug, PartialEq, Eq)]
pub enum RpcParam {
    Text(String),
    Flag(bool),
}

/// A JSON-RPC request.
#[derive(Debug, PartialEq, Eq)]
pub struct JsonRpcRequest {
    pub jsonrpc: String,
    pub method: String,
    pub params: Vec<RpcParam>,
    pub id: u64,
}

/// The error member of a JSON-RPC response.
#[derive(Debug, PartialEq, Eq)]
pub struct JsonRpcError {
    pub code: i64,
    pub message: String,
}

/// A JSON-RPC response envelope whose result, when present, is a `T`.
#[derive(Debug, PartialEq, Eq)]
pub struct JsonRpcResponse<T> {
    pub jsonrpc: String,
    pub id: u64,
    pub result: Option<T>,
    pub error: Option<JsonRpcError>,
}

/// A block as the endpoint reports it: both fields hex-encoded.
#[derive(Debug, PartialEq, Eq)]
pub struct Block {
    pub number: String,
    pub timestamp: String,
}

/// A block's height and its timestamp in seconds since the Unix epoch.
#[derive(Clone, Copy, Debug, PartialEq, Eq, Structural)]
pub struct BlockHeader {
    pub number: u64,
    pub timestamp: u64,
}

/// A response that arrived but cannot be used.
#[derive(Debug, PartialEq, Eq)]
pub enum ProtocolFailure {
    /// The body was not a response envelope; the text says why.
    MalformedResponse(String),
    /// The endpoint answered with an error payload.
    RpcError(JsonRpcError),
    /// The envelope carries neither an error nor a result.
    MissingResult,
    /// A field that should hold a hex-encoded quantity holds this instead.
    InvalidHex(String),
}

/// Why a call to the endpoint gave no value.
#[derive(Debug, PartialEq, Eq)]
pub enum FetchError {
    /// The endpoint could not be reached or did not answer in HTTP; the text
    /// says why.
    TransportFailure(String),
    /// The endpoint answered, but not with a usable response.
    ProtocolFailure(ProtocolFailure),
}

/// The line that says what went wrong with a response.
pub open spec fn failure_text(failure: ProtocolFailure) -> Seq<char> {
    match failure {
        ProtocolFailure::MalformedResponse(detail) => "Malformed response: "@ + detail@,
        ProtocolFailure::RpcError(error) => "RPC error: "@ + error.message@,
        ProtocolFailure::MissingResult => "Missing result"@,
        ProtocolFailure::InvalidHex(text) => "Invalid hex quantity: "@ + text@,
    }
}

/// The line that says what went wrong with a call.
pub open spec fn error_text(error: FetchError) -> Seq<char> {
    match error {
        FetchError::TransportFailure(detail) => "Transport failure: "@ + detail@,
        FetchError::ProtocolFailure(failure) => failure_text(failure),
    }
}

impl ProtocolFailure {
    /// What went wrong, in words.
    pub fn describe(&self) -> (text: String)
        ensures
            text@ == failure_text(*self),
    {
        match self {
            ProtocolFailure::MalformedResponse(detail) => {
                String::from_str("Malformed response: ").concat(detail.as_str())
            },
            ProtocolFailure::RpcError(error) => {
                String::from_str("RPC error: ").concat(error.message.as_str())
            },
            ProtocolFailure::MissingResult => String::from_str("Missing result"),
            ProtocolFailure::InvalidHex(text) => {
                String::from_str("Invalid hex quantity: ").concat(text.as_str())
            },
        }
    }
}

impl FetchError {
    /// What went wrong, in words.
    pub fn describe(&self) -> (text: String)
        ensures
            text@ == error_text(*self),
    {
        match self {
            FetchError::TransportFailure(detail) => {
                String::from_str("Transport failure: ").concat(detail.as_str())
            },
            FetchError::ProtocolFailure(failure) => failure.describe(),
        }
    }
}

impl JsonRpcRequest {
    /// `self` asks for the latest block height under the request id `id`.
    pub open spec fn is_block_number(&self, id: u64) -> bool {
        &&& self.jsonrpc@ == "2.0"@
        &&& self.method@ == "eth_blockNumber"@
        &&& self.params@.len() == 0
        &&& self.id == id
    }

    /// `self` asks for the block at height `block_number`, without its
    /// transactions, under the request id `id`.
    pub open spec fn is_block_by_number(&self, id: u64, block_number: u64) -> bool {
        &&& self.jsonrpc@ == "2.0"@
        &&& self.method@ == "eth_getBlockByNumber"@
        &&& self.params@.len() == 2
        &&& self.params@[0] matches RpcParam::Text(height)
        &&& height@ == hex_quantity(block_number)
        &&& self.params@[1] == RpcParam::Flag(false)
        &&& self.id == id
    }

    /// The request for the latest block height.
    pub fn block_number(id: u64) -> (request: JsonRpcRequest)
        ensures
            request.is_block_number(id),
    {
        JsonRpcRequest {
            jsonrpc: String::from_str("2.0"),
            method: String::from_str("eth_blockNumber"),
            params: Vec::new(),
            id,
        }
    }

    /// The request for the block at height `block_number`.
    pub fn block_by_number(id: u64, block_number: u64) -> (request: JsonRpcRequest)
        ensures
            request.is_block_by_number(id, block_number),
    {
        let mut params: Vec<RpcParam> = Vec::new();
        params.push(RpcParam::Text(format_hex(block_number)));
        params.push(RpcParam::Flag(false));
        JsonRpcRequest {
            jsonrpc: String::from_str("2.0"),
            method: String::from_str("eth_getBlockByNumber"),
            params,
            id,
        }
    }
}

/// What an envelope holds: its error payload if there is one, else its
/// result, and a failure if it has neither.
pub open spec fn envelope_result<T>(response: JsonRpcResponse<T>) -> Result<T, ProtocolFailure> {
    match response.error {
        Some(error) => Err(ProtocolFailure::RpcError(error)),
        None => match response.result {
            Some(value) => Ok(value),
            None => Err(ProtocolFailure::MissingResult),
        },
    }
}

/// The quantity that a hex-encoded field holds.
pub open spec fn read_quantity(text: String) -> Result<u64, ProtocolFailure> {
    match parse_hex_quantity(text@) {
        Some(value) => Ok(value),
        None => Err(ProtocolFailure::InvalidHex(text)),
    }
}

/// The header that a reported block holds: its height, then its timestamp,
/// each read as a hex-encoded quantity.
pub open spec fn read_block(block: Block) -> Result<BlockHeader, ProtocolFailure> {
    match read_quantity(block.number) {
        Err(failure) => Err(failure),
        Ok(number) => match read_quantity(block.timestamp) {
            Err(failure) => Err(failure),
            Ok(timestamp) => Ok(BlockHeader { number, timestamp }),
        },
    }
}

/// The latest height that the reply to a height request gives.
pub open spec fn latest_height_of(reply: Result<JsonRpcResponse<String>, FetchError>) -> Result<
    u64,
    FetchError,
> {
    match reply {
        Err(error) => Err(error),
        Ok(response) => match envelope_result(response) {
            Err(failure) => Err(FetchError::ProtocolFailure(failure)),
            Ok(text) => match read_quantity(text) {
                Err(failure) => Err(FetchError::ProtocolFailure(failure)),
                Ok(height) => Ok(height),
            },
        },
    }
}

/// The block header that the reply to a block request gives.
pub open spec fn block_header_of(reply: Result<JsonRpcResponse<Block>, FetchError>) -> Result<
    BlockHeader,
    FetchError,
> {
    match reply {
        Err(error) => Err(error),
        Ok(response) => match envelope_result(response) {
            Err(failure) => Err(FetchError::ProtocolFailure(failure)),
            Ok(block) => match read_block(block) {
                Err(failure) => Err(FetchError::ProtocolFailure(failure)),
                Ok(header) => Ok(header),
            },
        },
    }
}

impl<T> JsonRpcResponse<T> {
    /// Opens the envelope: an error payload wins over a result, and an
    /// envelope with neither is a failure.
    pub fn into_result(self) -> (outcome: Result<T, ProtocolFailure>)
        ensures
            outcome == envelope_result(self),
    {
        match self.error {
            Some(error) => Err(ProtocolFailure::RpcError(error)),
            None => match self.result {
                Some(value) => Ok(value),
                None => Err(ProtocolFailure::MissingResult),
            },
        }
    }
}

/// Reads a hex-encoded quantity; a text that holds none comes back in the
/// failure.
pub fn parse_quantity(text: String) -> (outcome: Result<u64, ProtocolFailure>)
    ensures
        outcome == read_quantity(text),
{
    match parse_hex_u64(text.as_str()) {
        Some(value) => Ok(value),
        None => Err(ProtocolFailure::InvalidHex(text)),
    }
}

/// Reads the height and the timestamp of a reported block.
pub fn parse_block(block: Block) -> (outcome: Result<BlockHeader, ProtocolFailure>)
    ensures
        outcome == read_block(block),
{
    match parse_quantity(block.number) {
        Err(failure) => Err(failure),
        Ok(number) => match parse_quantity(block.timestamp) {
            Err(failure) => Err(failure),
            Ok(timestamp) => Ok(BlockHeader { number, timestamp }),
        },
    }
}

/// Reads the reply to a height request: a failed call stays the failure it
/// was, and a response is opened and its result read as a height.
pub fn get_block_number(reply: Result<JsonRpcResponse<String>, FetchError>) -> (outcome: Result<
    u64,
    FetchError,
>)
    ensures
        outcome == latest_height_of(reply),
{
    match reply {
        Err(error) => Err(error),
        Ok(response) => match response.into_result() {
            Err(failure) => Err(FetchError::ProtocolFailure(failure)),
            Ok(text) => match parse_quantity(text) {
                Err(failure) => Err(FetchError::ProtocolFailure(failure)),
                Ok(height) => Ok(height),
            },
        },
    }
}

/// Reads the reply to a block request: a failed call stays the failure it
/// was, and a response is opened and its block read.
pub fn get_block_by_number(reply: Result<JsonRpcResponse<Block>, FetchError>) -> (outcome: Result<
    BlockHeader,
    FetchError,
>)
    ensures
        outcome == block_header_of(reply),
{
    match reply {
        Err(error) => Err(error),
        Ok(response) => match response.into_result() {
            Err(failure) => Err(FetchError::ProtocolFailure(failure)),
            Ok(block) => match parse_block(block) {
                Err(failure) => Err(FetchError::ProtocolFailure(failure)),
                Ok(header) => Ok(header),
            },
        },
    }
}

} // verus!
