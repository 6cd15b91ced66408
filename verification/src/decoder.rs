//! Decoding of a raw log into a transfer event.
//!
//! The event is `Transfer(address indexed from, address indexed to, uint256 value)`:
//! three topics (the event's signature hash and the two addresses, each
//! right-aligned in a word of thirty-two bytes) and a payload whose first
//! word is the value in big-endian order.

use vstd::prelude::*;
use crate::encoding::be_value;
use crate::log::{bytes_equal, RawLog};

verus! {

/// Number of topics of a transfer log: signature, sender, recipient.
pub const TRANSFER_TOPICS: usize = 3;

/// Bytes of one ABI word.
pub const WORD_BYTES: usize = 32;

/// Why a log could not be decoded.
#[derive(Clone, Copy, Debug, PartialEq, Eq)]
pub enum DecodeError {
    /// Topics or payload do not have the shape of the expected event.
    SchemaMismatch,
}

/// A decoded transfer, with what identifies the log it came from.
#[derive(Clone, Copy, Debug, PartialEq, Eq)]
pub struct DecodedEvent {
    pub from: [u8; 20],
    pub to: [u8; 20],
    /// The amount, thirty-two bytes in big-endian order.
    pub value: [u8; 32],
    pub block_number: u64,
    pub transaction_hash: [u8; 32],
    pub log_index: u64,
}

/// A decoded transfer as plain values.
pub struct DecodedEventView {
    pub from: Seq<u8>,
    pub to: Seq<u8>,
    /// The amount, thirty-two bytes in big-endian order.
    pub value: Seq<u8>,
    pub block_number: u64,
    pub transaction_hash: Seq<u8>,
    pub log_index: u64,
}

impl View for DecodedEvent {
    type V = DecodedEventView;

    open spec fn view(&self) -> DecodedEventView {
        DecodedEventView {
            from: self.from@,
            to: self.to@,
            value: self.value@,
            block_number: self.block_number,
            transaction_hash: self.transaction_hash@,
            log_index: self.log_index,
        }
    }
}

impl DecodedEventView {
    /// The amount transferred, as a number.
    pub open spec fn amount(self) -> nat {
        be_value(self.value)
    }
}

/// Whether `log` has the shape of a transfer whose signature hash is `topic0`.
pub open spec fn matches_schema(log: RawLog, topic0: Seq<u8>) -> bool {
    &&& log.topics@.len() == TRANSFER_TOPICS
    &&& log.topics@[0]@ == topic0
    &&& log.data@.len() >= WORD_BYTES
}

/// The address held in the last twenty bytes of a topic word.
pub open spec fn address_in(word: Seq<u8>) -> Seq<u8> {
    word.subrange(12, 32)
}

/// The transfer that the topics and payload of `log` spell.
pub open spec fn transfer_of(log: RawLog) -> DecodedEventView {
    DecodedEventView {
        from: address_in(log.topics@[1]@),
        to: address_in(log.topics@[2]@),
        value: log.data@.subrange(0, WORD_BYTES as int),
        block_number: log.block_number,
        transaction_hash: log.transaction_hash@,
        log_index: log.log_index,
    }
}

/// What decoding `log` against the signature hash `topic0` gives.
pub open spec fn decoding(log: RawLog, topic0: Seq<u8>) -> Result<DecodedEventView, DecodeError> {
    if matches_schema(log, topic0) {
        Ok(transfer_of(log))
    } else {
        Err(DecodeError::SchemaMismatch)
    }
}

/// Whether `result` is what decoding `log` against `topic0` gives.
pub open spec fn is_decoding(
    result: Result<DecodedEvent, DecodeError>,
    log: RawLog,
    topic0: Seq<u8>,
) -> bool {
    match result {
        Ok(event) => decoding(log, topic0) == Ok::<DecodedEventView, DecodeError>(event@),
        Err(error) => decoding(log, topic0) == Err::<DecodedEventView, DecodeError>(error),
    }
}

fn address_of_word(word: &[u8; 32]) -> (address: [u8; 20])
    ensures
        address@ == address_in(word@),
{
    let mut address = [0u8;20];
    let mut i: usize = 0;
    while i < 20
        invariant
            i <= 20,
            forall|k: int| 0 <= k < i ==> address@[k] == word@[k + 12],
        decreases 20 - i,
    {
        address[i] = word[i + 12];
        i += 1;
    }
    assert(address@ =~= address_in(word@));
    address
}

fn leading_word(data: &Vec<u8>) -> (word: [u8; 32])
    requires
        data@.len() >= WORD_BYTES,
    ensures
        word@ == data@.subrange(0, WORD_BYTES as int),
{
    let mut word = [0u8;32];
    let mut i: usize = 0;
    while i < 32
        invariant
            i <= 32,
            data@.len() >= 32,
            forall|k: int| 0 <= k < i ==> word@[k] == data@[k],
        decreases 32 - i,
    {
        word[i] = data[i];
        i += 1;
    }
    assert(word@ =~= data@.subrange(0, WORD_BYTES as int));
    word
}

/// Decodes `raw_log` as a transfer whose signature hash is `topic0`.
///
/// The log must carry exactly three topics, the first of them `topic0`, and a
/// payload of at least one word; any other log is a schema mismatch. The
/// result depends on nothing but the two arguments, and the log is left as it was.
pub fn decode(raw_log: &RawLog, topic0: &[u8; 32]) -> (result: Result<DecodedEvent, DecodeError>)
    ensures
        result is Ok <==> matches_schema(*raw_log, topic0@),
        is_decoding(result, *raw_log, topic0@),
{
    if raw_log.topics.len() != TRANSFER_TOPICS || raw_log.data.len() < WORD_BYTES {
        return Err(DecodeError::SchemaMismatch);
    }
    if !bytes_equal(&raw_log.topics[0], topic0) {
        return Err(DecodeError::SchemaMismatch);
    }
    Ok(
        DecodedEvent {
            from: address_of_word(&raw_log.topics[1]),
            to: address_of_word(&raw_log.topics[2]),
            value: leading_word(&raw_log.data),
            block_number: raw_log.block_number,
            transaction_hash: raw_log.transaction_hash,
            log_index: raw_log.log_index,
        },
    )
}

/// A log and a signature hash admit one decoding only, so decoding the same
/// log twice gives the same event or the same error.
pub proof fn law_decode_pure(
    log: RawLog,
    topic0: Seq<u8>,
    first: Result<DecodedEvent, DecodeError>,
    second: Result<DecodedEvent, DecodeError>,
)
    requires
        is_decoding(first, log, topic0),
        is_decoding(second, log, topic0),
    ensures
        first == second,
{
    if let Ok(a) = first {
        let b = second->Ok_0;
        assert(a@ == b@);
        assert(a.from == b.from);
        assert(a.to == b.to);
        assert(a.value == b.value);
        assert(a.transaction_hash == b.transaction_hash);
    }
}

} // verus!
