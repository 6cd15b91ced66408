//! The identity of one indexer: which contract, which event, and between
//! which blocks history has to be fetched.

use vstd::prelude::*;
use vstd::utf8::encode_utf8;
use crate::encoding::{address_from_str, keccak256, keccak256_digest, parse_address};
use crate::log::LogFilter;
use crate::scanner::{Backfill, Scanner};
use crate::subscriber::LiveSubscription;

verus! {

#[derive(Clone, Copy, Debug, PartialEq, Eq)]
pub enum IndexerError {
    /// A block number is negative, or the creation block lies behind the
    /// start-up block.
    InvalidBlockRange,
    /// The contract address is not forty hexadecimal digits.
    InvalidAddress,
}

/// Set once at construction and only read afterwards.
#[derive(Clone, Debug, PartialEq, Eq)]
pub struct Indexer {
    pub contract_address: String,
    /// Block in which the contract was created; the backfill starts here.
    pub creation_block: u64,
    /// Block at which the indexer started; the backfill ends here, included.
    pub startup_block: u64,
    pub event_name: String,
    /// Canonical signature of the event, such as `Transfer(address,address,uint256)`.
    pub event_signature: String,
}

impl Indexer {
    /// The creation block does not lie behind the start-up block.
    pub open spec fn wf(self) -> bool {
        self.creation_block <= self.startup_block
    }

    /// Whether `filter` is the filter of this indexer: its address is the
    /// contract address read as hexadecimal, its first topic the Keccak-256
    /// digest of the event signature, its block range open.
    pub open spec fn has_filter(self, filter: LogFilter) -> bool {
        &&& parse_address(self.contract_address@) == Some(filter.address@)
        &&& filter.topic0@ == keccak256_digest(encode_utf8(self.event_signature@))
        &&& filter.from_block is None
        &&& filter.to_block is None
    }

    /// Builds the identity. It is refused when a block number is negative or
    /// the creation block lies behind the start-up block, and only then.
    pub fn new(
        contract_address: &str,
        creation_block: i64,
        startup_block: i64,
        event_name: String,
        event_signature: String,
    ) -> (result: Result<Indexer, IndexerError>)
        ensures
            result is Ok <==> 0 <= creation_block <= startup_block,
            result matches Ok(indexer) ==> {
                &&& indexer.wf()
                &&& indexer.contract_address@ == contract_address@
                &&& indexer.creation_block == creation_block
                &&& indexer.startup_block == startup_block
                &&& indexer.event_name == event_name
                &&& indexer.event_signature == event_signature
            },
            result matches Err(error) ==> error == IndexerError::InvalidBlockRange,
    {
        if creation_block < 0 || creation_block > startup_block {
            return Err(IndexerError::InvalidBlockRange);
        }
        Ok(
            Indexer {
                contract_address: contract_address.to_owned(),
                creation_block: creation_block as u64,
                startup_block: startup_block as u64,
                event_name,
                event_signature,
            },
        )
    }

    /// The filter of this indexer, with the block range left open. It is
    /// refused when the contract address does not parse, and only then.
    pub fn filter(&self) -> (result: Result<LogFilter, IndexerError>)
        ensures
            result is Ok <==> parse_address(self.contract_address@) is Some,
            result matches Ok(filter) ==> self.has_filter(filter),
            result matches Err(error) ==> error == IndexerError::InvalidAddress,
    {
        match address_from_str(self.contract_address.as_str()) {
            Ok(address) => {
                let topic0 = keccak256(self.event_signature.as_str().as_bytes());
                Ok(LogFilter { address, topic0, from_block: None, to_block: None })
            },
            Err(_) => Err(IndexerError::InvalidAddress),
        }
    }

    /// Prepares the backfill from the creation block to the start-up block,
    /// both included: a scanner that has not asked anything yet.
    pub fn backfill_database(&self) -> (result: Result<Scanner, IndexerError>)
        ensures
            result is Ok <==> parse_address(self.contract_address@) is Some,
            result matches Ok(scanner) ==> {
                &&& self.has_filter(scanner.filter)
                &&& scanner.progress == Backfill::initial(self.creation_block, self.startup_block)
                &&& scanner.progress.wf()
            },
            result matches Err(error) ==> error == IndexerError::InvalidAddress,
    {
        match self.filter() {
            Ok(filter) => Ok(Scanner::new(filter, self.creation_block, self.startup_block)),
            Err(error) => Err(error),
        }
    }

    /// Prepares the live subscription: open, on the contract and the event
    /// signature, and bounded by no block.
    pub fn event_parser(&self) -> (result: Result<LiveSubscription, IndexerError>)
        ensures
            result is Ok <==> parse_address(self.contract_address@) is Some,
            result matches Ok(subscription) ==> {
                &&& self.has_filter(subscription.filter)
                &&& subscription.open
            },
            result matches Err(error) ==> error == IndexerError::InvalidAddress,
    {
        match self.filter() {
            Ok(filter) => Ok(LiveSubscription::new(filter)),
            Err(error) => Err(error),
        }
    }
}

} // verus!
