//! The live subscriber: what to do with each thing the push stream delivers.

use vstd::prelude::*;
use crate::decoder::DecodeError;
use crate::log::{LogFilter, RawLog};
use crate::publisher::{
    normalize,
    normalized,
    normalized_all,
    OutboundMessage,
    OutboundMessageView,
};

verus! {

/// One delivery of the push stream.
#[derive(Clone, Debug, PartialEq, Eq)]
pub enum StreamEvent {
    /// A new log arrived.
    Log(RawLog),
    /// The stream ended.
    Closed,
}

/// Why the live subscriber stopped.
#[derive(Clone, Copy, Debug, PartialEq, Eq)]
pub enum SubscriptionError {
    StreamClosed,
}

/// What the caller has to do after a delivery.
#[derive(Clone, Debug, PartialEq, Eq)]
pub enum LiveAction {
    /// Hand the message to the publisher, then wait for the next delivery.
    Publish(OutboundMessage),
    /// Report the log as undecodable, then wait for the next delivery.
    Skip(DecodeError),
    /// Give up: the subscriber has ended with this error.
    Stop(SubscriptionError),
}

/// A live subscription on one contract and one event signature, open from
/// the moment it is made until the stream closes or it is cancelled.
#[derive(Clone, Copy, Debug, PartialEq, Eq)]
pub struct LiveSubscription {
    /// Contract and event signature; no block range.
    pub filter: LogFilter,
    pub open: bool,
}

impl LiveSubscription {
    /// The subscription after `event`.
    pub open spec fn after(self, event: StreamEvent) -> LiveSubscription {
        match event {
            StreamEvent::Log(_) => self,
            StreamEvent::Closed => LiveSubscription { open: false, ..self },
        }
    }

    /// The message that `event` gives to publish, if any.
    pub open spec fn to_publish(self, event: StreamEvent) -> Option<OutboundMessageView> {
        match event {
            StreamEvent::Log(log) if self.open => normalized(log, self.filter.topic0@),
            _ => None,
        }
    }

    /// The subscription after the deliveries `events`, in order.
    pub open spec fn after_all(self, events: Seq<StreamEvent>) -> LiveSubscription
        decreases events.len(),
    {
        if events.len() == 0 {
            self
        } else {
            self.after_all(events.drop_last()).after(events.last())
        }
    }

    /// The messages given to publish over the deliveries `events`, in order.
    pub open spec fn published(self, events: Seq<StreamEvent>) -> Seq<OutboundMessageView>
        decreases events.len(),
    {
        if events.len() == 0 {
            Seq::empty()
        } else {
            let earlier = self.published(events.drop_last());
            match self.after_all(events.drop_last()).to_publish(events.last()) {
                Some(message) => earlier.push(message),
                None => earlier,
            }
        }
    }

    /// An open subscription with `filter`, whose block range is dropped.
    pub fn new(filter: LogFilter) -> (subscription: LiveSubscription)
        ensures
            subscription.open,
            subscription.filter == (LogFilter { from_block: None, to_block: None, ..filter }),
    {
        LiveSubscription {
            filter: LogFilter {
                address: filter.address,
                topic0: filter.topic0,
                from_block: None,
                to_block: None,
            },
            open: true,
        }
    }

    /// Ends the subscription from outside. Every later delivery is answered
    /// with `Stop`.
    pub fn cancel(&mut self)
        ensures
            *final(self) == (LiveSubscription { open: false, ..*old(self) }),
    {
        self.open = false;
    }

    /// Decides what to do with one delivery.
    ///
    /// While the subscription is open, a log that decodes is to be published
    /// and one that does not is to be skipped; the subscription stays open
    /// either way. The end of the stream closes it. Once closed it answers
    /// everything with `Stop`.
    pub fn on_event(&mut self, event: &StreamEvent) -> (action: LiveAction)
        ensures
            *final(self) == old(self).after(*event),
            match action {
                LiveAction::Publish(message) => old(self).to_publish(*event) == Some(message@),
                LiveAction::Skip(error) => old(self).open && event is Log && old(self).to_publish(
                    *event,
                ) is None && error == DecodeError::SchemaMismatch,
                LiveAction::Stop(error) => (!old(self).open || event is Closed) && error
                    == SubscriptionError::StreamClosed,
            },
    {
        if !self.open {
            return LiveAction::Stop(SubscriptionError::StreamClosed);
        }
        match event {
            StreamEvent::Log(log) => match normalize(log, &self.filter.topic0) {
                Ok(message) => LiveAction::Publish(message),
                Err(error) => LiveAction::Skip(error),
            },
            StreamEvent::Closed => {
                self.open = false;
                LiveAction::Stop(SubscriptionError::StreamClosed)
            },
        }
    }
}

/// The logs of `events` that came before the stream first closed, in the
/// order in which they came.
pub open spec fn arrived(events: Seq<StreamEvent>) -> Seq<RawLog>
    decreases events.len(),
{
    if events.len() == 0 {
        Seq::empty()
    } else {
        let earlier = events.drop_last();
        match events.last() {
            StreamEvent::Log(log) if never_closed(earlier) => arrived(earlier).push(log),
            _ => arrived(earlier),
        }
    }
}

/// No delivery of `events` is the end of the stream.
pub open spec fn never_closed(events: Seq<StreamEvent>) -> bool {
    forall|k: int| 0 <= k < events.len() ==> #[trigger] events[k] is Log
}

/// A subscription gives to publish the message of every log that arrives
/// while it is open and decodes, one by one in the order of arrival, and
/// nothing after the stream has closed.
pub proof fn law_live_in_arrival_order(subscription: LiveSubscription, events: Seq<StreamEvent>)
    requires
        subscription.open,
    ensures
        subscription.after_all(events).open == never_closed(events),
        subscription.after_all(events).filter == subscription.filter,
        subscription.published(events) == normalized_all(
            arrived(events),
            subscription.filter.topic0@,
        ),
    decreases events.len(),
{
    if events.len() > 0 {
        let earlier = events.drop_last();
        law_live_in_arrival_order(subscription, earlier);
        assert forall|k: int| 0 <= k < earlier.len() implies earlier[k] == events[k] by {}
        if never_closed(events) {
            assert forall|k: int| 0 <= k < earlier.len() implies #[trigger] earlier[k] is Log by {
                assert(events[k] is Log);
            }
        } else if events.last() is Log {
            let k = choose|k: int| 0 <= k < events.len() && !(#[trigger] events[k] is Log);
            assert(earlier[k] == events[k]);
        }
        match events.last() {
            StreamEvent::Log(log) => {
                if never_closed(earlier) {
                    assert(arrived(events).drop_last() =~= arrived(earlier));
                    assert(arrived(events).last() == log);
                    assert(subscription.published(events) =~= normalized_all(
                        arrived(events),
                        subscription.filter.topic0@,
                    ));
                }
            },
            StreamEvent::Closed => {},
        }
    }
}

} // verus!
