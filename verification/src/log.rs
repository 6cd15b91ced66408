//! Chain logs as the log source delivers them, and the filter that selects them.

use vstd::prelude::*;

verus! {

/// One log record of the chain, as received. Nothing here is interpreted yet.
#[derive(Clone, Debug, PartialEq, Eq)]
pub struct RawLog {
    /// Address of the contract that emitted the log.
    pub address: [u8; 20],
    /// Indexed topics; the first names the event.
    pub topics: Vec<[u8; 32]>,
    /// ABI-encoded payload of the parameters that are not indexed.
    pub data: Vec<u8>,
    pub block_number: u64,
    pub block_hash: [u8; 32],
    pub transaction_hash: [u8; 32],
    pub transaction_index: u64,
    pub log_index: u64,
    /// Set when a reorganisation retracted the log.
    pub removed: bool,
}

/// Where a log sits on the chain: what an outbound message keeps of it.
#[derive(Clone, Copy, Debug, PartialEq, Eq)]
pub struct LogMetadata {
    pub block_number: u64,
    pub block_hash: [u8; 32],
    pub transaction_hash: [u8; 32],
    pub transaction_index: u64,
    pub log_index: u64,
}

/// What the log source is asked for: the logs of one contract that carry one
/// event signature, within a block range or, with both ends open, from now on.
#[derive(Clone, Copy, Debug, PartialEq, Eq)]
pub struct LogFilter {
    /// Address of the contract.
    pub address: [u8; 20],
    /// Hash of the event signature, the first topic of every matching log.
    pub topic0: [u8; 32],
    /// First block of the range, included.
    pub from_block: Option<u64>,
    /// Last block of the range, included.
    pub to_block: Option<u64>,
}

impl LogFilter {
    /// The same filter for the blocks from `from_block` to `to_block`.
    pub open spec fn spec_within(&self, from_block: u64, to_block: u64) -> LogFilter {
        LogFilter {
            address: self.address,
            topic0: self.topic0,
            from_block: Some(from_block),
            to_block: Some(to_block),
        }
    }

    /// The same filter for the blocks from `from_block` to `to_block`, both included.
    #[verifier::when_used_as_spec(spec_within)]
    pub fn within(&self, from_block: u64, to_block: u64) -> (bounded: LogFilter)
        ensures
            bounded == self.spec_within(from_block, to_block),
    {
        LogFilter {
            address: self.address,
            topic0: self.topic0,
            from_block: Some(from_block),
            to_block: Some(to_block),
        }
    }
}

impl RawLog {
    /// Position of the log on the chain, without topics and payload.
    pub open spec fn spec_metadata(&self) -> LogMetadata {
        LogMetadata {
            block_number: self.block_number,
            block_hash: self.block_hash,
            transaction_hash: self.transaction_hash,
            transaction_index: self.transaction_index,
            log_index: self.log_index,
        }
    }

    /// Position of the log on the chain, without topics and payload.
    #[verifier::when_used_as_spec(spec_metadata)]
    pub fn metadata(&self) -> (meta: LogMetadata)
        ensures
            meta == self.spec_metadata(),
    {
        LogMetadata {
            block_number: self.block_number,
            block_hash: self.block_hash,
            transaction_hash: self.transaction_hash,
            transaction_index: self.transaction_index,
            log_index: self.log_index,
        }
    }
}

/// Whether two fixed-size byte strings hold the same bytes.
pub fn bytes_equal<const N: usize>(a: &[u8; N], b: &[u8; N]) -> (same: bool)
    ensures
        same == (a@ == b@),
{
    let mut i: usize = 0;
    while i < N
        invariant
            i <= N,
            forall|k: int| 0 <= k < i ==> a@[k] == b@[k],
        decreases N - i,
    {
        if a[i] != b[i] {
            return false;
        }
        i += 1;
    }
    assert(a@ =~= b@);
    true
}

} // verus!
