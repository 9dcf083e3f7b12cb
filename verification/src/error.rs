//! The ways a call can fail. None of them is fatal to the process.
use crate::types::WsChannelErr;
use vstd::prelude::*;
use vstd::string::StringExecFns;

verus! {

/// What went wrong with a call, a connection or a subscription.
#[derive(Clone, Copy, PartialEq, Eq, Structural, Debug)]
pub enum Error {
    /// No node could be selected, or the chosen worker is absent.
    RoutingUnavailable,
    /// The connection of the worker at this index failed.
    WorkerClosed(usize),
    /// The wait for the correlated response ran out.
    CorrelationTimeout,
    /// The request is not one the balancer can act on.
    MalformedRequest,
    /// The cache could not be used; a read counts as a miss.
    CacheUnavailable,
    /// Another call is already subscribing to the same request upstream.
    SubscriptionDedupLoss,
    /// No subscription exists yet: the caller has to subscribe upstream.
    SubscriptionMissing,
}

impl Error {
    /// The error that a report on the error channel stands for.
    pub fn from_channel(report: WsChannelErr) -> (e: Error)
        ensures
            e == match report {
                WsChannelErr::Closed(index) => Error::WorkerClosed(index),
            },
    {
        match report {
            WsChannelErr::Closed(index) => Error::WorkerClosed(index),
        }
    }

    /// The text that describes this error.
    pub open spec fn spec_message(self) -> Seq<char> {
        match self {
            Error::RoutingUnavailable => "no upstream node available"@,
            Error::WorkerClosed(_) => "upstream connection closed"@,
            Error::CorrelationTimeout => "Failed to receive response from WS"@,
            Error::MalformedRequest => "Bad Subscription ID!"@,
            Error::CacheUnavailable => "cache unavailable"@,
            Error::SubscriptionDedupLoss => "subscription already in flight"@,
            Error::SubscriptionMissing => "not subscribed upstream"@,
        }
    }

    /// The text that describes this error.
    pub fn message(&self) -> (text: String)
        ensures
            text@ == self.spec_message(),
    {
        match self {
            Error::RoutingUnavailable => String::from_str("no upstream node available"),
            Error::WorkerClosed(_) => String::from_str("upstream connection closed"),
            Error::CorrelationTimeout => String::from_str("Failed to receive response from WS"),
            Error::MalformedRequest => String::from_str("Bad Subscription ID!"),
            Error::CacheUnavailable => String::from_str("cache unavailable"),
            Error::SubscriptionDedupLoss => String::from_str("subscription already in flight"),
            Error::SubscriptionMissing => String::from_str("not subscribed upstream"),
        }
    }
}

} // verus!
