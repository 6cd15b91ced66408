//! The outbound message: a decoded event merged with the position of its
//! log, rendered as text and numbers and freed of topics and payload.

use vstd::prelude::*;
use crate::decoder::{decode, decoding, DecodeError, DecodedEvent, DecodedEventView};
use crate::encoding::{
    decimal_of,
    encode_decimal,
    encode_hex,
    lemma_prefixed_hex_injective,
    prefixed_hex,
};
use crate::log::{LogMetadata, RawLog};

verus! {

/// The record handed to the outbound queue, one per log.
#[derive(Clone, Debug, PartialEq, Eq)]
pub struct OutboundMessage {
    /// Sender, as prefixed lower-case hexadecimal text.
    pub from: String,
    /// Recipient, as prefixed lower-case hexadecimal text.
    pub to: String,
    /// Amount, as decimal text.
    pub value: String,
    pub block_number: u64,
    /// Block hash, as prefixed lower-case hexadecimal text.
    pub block_hash: String,
    /// Transaction hash, as prefixed lower-case hexadecimal text.
    pub transaction_hash: String,
    pub transaction_index: u64,
    pub log_index: u64,
}

/// An outbound message as plain values.
pub struct OutboundMessageView {
    pub from: Seq<char>,
    pub to: Seq<char>,
    pub value: Seq<char>,
    pub block_number: u64,
    pub block_hash: Seq<char>,
    pub transaction_hash: Seq<char>,
    pub transaction_index: u64,
    pub log_index: u64,
}

impl View for OutboundMessage {
    type V = OutboundMessageView;

    open spec fn view(&self) -> OutboundMessageView {
        OutboundMessageView {
            from: self.from@,
            to: self.to@,
            value: self.value@,
            block_number: self.block_number,
            block_hash: self.block_hash@,
            transaction_hash: self.transaction_hash@,
            transaction_index: self.transaction_index,
            log_index: self.log_index,
        }
    }
}

impl OutboundMessageView {
    /// What tells one message from another for a consumer: the hash of the
    /// transaction and the index of the log.
    pub open spec fn dedup_key(self) -> (Seq<char>, u64) {
        (self.transaction_hash, self.log_index)
    }
}

/// How the queue answered one send.
#[derive(Clone, Copy, Debug, PartialEq, Eq)]
pub enum SendOutcome {
    /// The broker confirmed that it holds the message.
    Confirmed,
    /// The broker refused the message.
    Rejected,
    /// The send went out but no confirmation came back.
    Unconfirmed,
    /// The connection or the channel was gone.
    ConnectionLost,
}

/// Why a message counts as not delivered.
#[derive(Clone, Copy, Debug, PartialEq, Eq)]
pub enum PublishError {
    BrokerRejected,
    Unconfirmed,
    ConnectionLost,
}

/// The message for `event`, found at `meta` on the chain.
pub open spec fn rendering(event: DecodedEventView, meta: LogMetadata) -> OutboundMessageView {
    OutboundMessageView {
        from: prefixed_hex(event.from),
        to: prefixed_hex(event.to),
        value: decimal_of(event.amount()),
        block_number: meta.block_number,
        block_hash: prefixed_hex(meta.block_hash@),
        transaction_hash: prefixed_hex(meta.transaction_hash@),
        transaction_index: meta.transaction_index,
        log_index: meta.log_index,
    }
}

/// The message that `log` gives when decoded against `topic0`, `None` where
/// it does not decode.
pub open spec fn normalized(log: RawLog, topic0: Seq<u8>) -> Option<OutboundMessageView> {
    match decoding(log, topic0) {
        Ok(event) => Some(rendering(event, log.spec_metadata())),
        Err(_) => None,
    }
}

/// `normalized` with the signature hash fixed.
pub open spec fn normalizer(topic0: Seq<u8>) -> spec_fn(RawLog) -> Option<OutboundMessageView> {
    |log: RawLog| normalized(log, topic0)
}

/// The messages of the logs that decode, in the order of `logs`.
pub open spec fn normalized_all(logs: Seq<RawLog>, topic0: Seq<u8>) -> Seq<OutboundMessageView> {
    logs.filter_map(normalizer(topic0))
}

/// The plain values of a run of messages.
pub open spec fn views_of(messages: Seq<OutboundMessage>) -> Seq<OutboundMessageView> {
    messages.map_values(|m: OutboundMessage| m@)
}

impl OutboundMessage {
    /// Builds the message for `event`, found at `meta` on the chain.
    pub fn build(event: &DecodedEvent, meta: &LogMetadata) -> (message: OutboundMessage)
        ensures
            message@ == rendering(event@, *meta),
    {
        OutboundMessage {
            from: encode_hex(event.from.as_slice()),
            to: encode_hex(event.to.as_slice()),
            value: encode_decimal(&event.value),
            block_number: meta.block_number,
            block_hash: encode_hex(meta.block_hash.as_slice()),
            transaction_hash: encode_hex(meta.transaction_hash.as_slice()),
            transaction_index: meta.transaction_index,
            log_index: meta.log_index,
        }
    }

    /// Whether a consumer has to take `self` and `other` for the same event.
    pub fn is_duplicate_of(&self, other: &OutboundMessage) -> (same: bool)
        ensures
            same == (self@.dedup_key() == other@.dedup_key()),
    {
        self.log_index == other.log_index && self.transaction_hash == other.transaction_hash
    }
}

/// Decodes `log` against `topic0` and builds its message.
pub fn normalize(log: &RawLog, topic0: &[u8; 32]) -> (result: Result<OutboundMessage, DecodeError>)
    ensures
        result matches Ok(message) ==> normalized(*log, topic0@) == Some(message@),
        result matches Err(error) ==> normalized(*log, topic0@) is None && decoding(*log, topic0@)
            == Err::<DecodedEventView, DecodeError>(error),
{
    match decode(log, topic0) {
        Ok(event) => Ok(OutboundMessage::build(&event, &log.metadata())),
        Err(error) => Err(error),
    }
}

/// Builds the messages of the logs that decode, in the order of `logs`. A
/// log that does not decode is passed over and the rest goes on.
pub fn normalize_all(logs: &Vec<RawLog>, topic0: &[u8; 32]) -> (messages: Vec<OutboundMessage>)
    ensures
        views_of(messages@) == normalized_all(logs@, topic0@),
{
    let mut messages: Vec<OutboundMessage> = Vec::new();
    let mut i: usize = 0;
    while i < logs.len()
        invariant
            i <= logs.len(),
            views_of(messages@) == normalized_all(logs@.take(i as int), topic0@),
        decreases logs.len() - i,
    {
        let ghost before = messages@;
        proof {
            assert(logs@.take(i + 1).drop_last() =~= logs@.take(i as int));
            assert(logs@.take(i + 1).last() == logs@[i as int]);
        }
        match normalize(&logs[i], topic0) {
            Ok(message) => {
                messages.push(message);
                proof {
                    assert(views_of(messages@) =~= views_of(before) + seq![message@]);
                }
            },
            Err(_) => {},
        }
        i += 1;
    }
    proof {
        assert(logs@.take(i as int) =~= logs@);
    }
    messages
}

/// Normalising a run of logs piece by piece gives the same messages as
/// normalising it whole.
pub proof fn lemma_normalized_all_concat(first: Seq<RawLog>, second: Seq<RawLog>, topic0: Seq<u8>)
    ensures
        normalized_all(first + second, topic0) == normalized_all(first, topic0) + normalized_all(
            second,
            topic0,
        ),
    decreases second.len(),
{
    if second.len() == 0 {
        assert(first + second =~= first);
        assert(normalized_all(first, topic0) + normalized_all(second, topic0) =~= normalized_all(
            first,
            topic0,
        ));
    } else {
        assert((first + second).drop_last() =~= first + second.drop_last());
        assert((first + second).last() == second.last());
        lemma_normalized_all_concat(first, second.drop_last(), topic0);
        assert(normalized_all(first + second, topic0) =~= normalized_all(first, topic0)
            + normalized_all(second, topic0));
    }
}

/// Whether a send counts as delivered: only a confirmation of the broker
/// makes it so.
pub fn settle(outcome: SendOutcome) -> (result: Result<(), PublishError>)
    ensures
        result == match outcome {
            SendOutcome::Confirmed => Ok::<(), PublishError>(()),
            SendOutcome::Rejected => Err::<(), PublishError>(PublishError::BrokerRejected),
            SendOutcome::Unconfirmed => Err::<(), PublishError>(PublishError::Unconfirmed),
            SendOutcome::ConnectionLost => Err::<(), PublishError>(PublishError::ConnectionLost),
        },
{
    match outcome {
        SendOutcome::Confirmed => Ok(()),
        SendOutcome::Rejected => Err(PublishError::BrokerRejected),
        SendOutcome::Unconfirmed => Err(PublishError::Unconfirmed),
        SendOutcome::ConnectionLost => Err(PublishError::ConnectionLost),
    }
}

/// The key of a message is that of the log it was built from, so two
/// messages have the same key exactly when their logs share transaction hash
/// and log index; no key comes from anywhere but a log.
pub proof fn law_dedup_key_traces_to_log(first: RawLog, second: RawLog, topic0: Seq<u8>)
    requires
        normalized(first, topic0) is Some,
        normalized(second, topic0) is Some,
    ensures
        normalized(first, topic0)->0.dedup_key() == (
            prefixed_hex(first.transaction_hash@),
            first.log_index,
        ),
        normalized(first, topic0)->0.dedup_key() == normalized(second, topic0)->0.dedup_key() <==> (
        first.transaction_hash@ == second.transaction_hash@ && first.log_index
            == second.log_index),
{
    lemma_prefixed_hex_injective(first.transaction_hash@, second.transaction_hash@);
}

} // verus!
