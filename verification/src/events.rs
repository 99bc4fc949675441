//! Events of the driver loop, and the channels that carry them: an
//! unbounded queue feeds the service, fed by any number of producer
//! handles; each query event carries a single-use reply destination.
//!
//! The channel types and operations come from tokio and are trusted:
//! their contracts state only what tokio documents.

use vstd::prelude::*;
use crate::error::QueryError;
use crate::round::{DictEntry, RoundParameters};

verus! {

/// tokio's single-use reply sender; a query's private reply destination.
#[verifier::external_type_specification]
#[verifier::external_body]
#[verifier::reject_recursive_types(T)]
pub struct ExOneshotSender<T>(tokio::sync::oneshot::Sender<T>);

/// tokio's unbounded producer handle.
#[verifier::external_type_specification]
#[verifier::external_body]
#[verifier::reject_recursive_types(T)]
pub struct ExUnboundedSender<T>(tokio::sync::mpsc::UnboundedSender<T>);

/// tokio's unbounded consumer handle.
#[verifier::external_type_specification]
#[verifier::external_body]
#[verifier::reject_recursive_types(T)]
pub struct ExUnboundedReceiver<T>(tokio::sync::mpsc::UnboundedReceiver<T>);

/// Relies on tokio::sync::oneshot::Sender::send: consumes the sender;
/// the value is delivered unless the receiver was already dropped, and a
/// failed send gives the value back unchanged. Nothing is promised about
/// delivery: the receiver's liveness is a runtime race.
pub assume_specification<T>[ tokio::sync::oneshot::Sender::<T>::send ](
    sender: tokio::sync::oneshot::Sender<T>,
    t: T,
) -> (r: Result<(), T>)
    ensures
        r matches Err(v) ==> v == t,
;

/// Relies on tokio::sync::mpsc::unbounded_channel: a fresh connected
/// sender/receiver pair. Which events later flow through it depends on
/// the producers, so nothing more can be stated here.
pub assume_specification<T>[ tokio::sync::mpsc::unbounded_channel::<T> ]() -> (r: (
    tokio::sync::mpsc::UnboundedSender<T>,
    tokio::sync::mpsc::UnboundedReceiver<T>,
));

/// An inbound participant message, as raw transport bytes.
pub struct Message {
    pub buffer: Vec<u8>,
}

/// A request for the current round parameters.
pub struct RoundParametersRequest {
    pub response_tx: tokio::sync::oneshot::Sender<Option<RoundParameters>>,
}

/// A request for the published sum dictionary.
pub struct SumDictRequest {
    pub response_tx: tokio::sync::oneshot::Sender<Option<Vec<DictEntry>>>,
}

/// A request for the published model scalar.
pub struct ScalarRequest {
    pub response_tx: tokio::sync::oneshot::Sender<Option<u64>>,
}

/// A request for one participant's seed-dictionary slice.
pub struct SeedDictRequest {
    pub public_key: Vec<u8>,
    pub response_tx: tokio::sync::oneshot::Sender<Result<Vec<u8>, QueryError>>,
}

/// A request for the published mask length.
pub struct LengthRequest {
    pub response_tx: tokio::sync::oneshot::Sender<Option<u64>>,
}

/// One event of the merged stream: an inbound message, or a query
/// carrying its own reply channel. Produced outside the core, consumed
/// exactly once by the driver.
pub enum Event {
    Message(Message),
    RoundParameters(RoundParametersRequest),
    SumDict(SumDictRequest),
    Scalar(ScalarRequest),
    SeedDict(SeedDictRequest),
    Length(LengthRequest),
}

/// What one poll of the event stream yielded.
pub enum TryNext {
    /// The oldest queued event.
    Received(Event),
    /// Nothing queued now, but producer handles are still alive.
    Empty,
    /// Every producer handle was dropped and the queue is drained:
    /// the stream is permanently closed.
    Closed,
}

/// The merged, arrival-ordered sequence of events the driver consumes.
pub struct EventStream {
    pub rx: tokio::sync::mpsc::UnboundedReceiver<Event>,
}

impl EventStream {
    /// Relies on tokio::sync::mpsc::UnboundedReceiver::try_recv: hands
    /// out the oldest queued event, or reports the stream drained or
    /// closed. The outcome depends on what producers did, so nothing can
    /// be stated of it.
    #[verifier::external_body]
    pub fn try_next(&mut self) -> (r: TryNext) {
        match self.rx.try_recv() {
            Ok(event) => TryNext::Received(event),
            Err(tokio::sync::mpsc::error::TryRecvError::Empty) => TryNext::Empty,
            Err(tokio::sync::mpsc::error::TryRecvError::Disconnected) => TryNext::Closed,
        }
    }
}

/// A producer handle on the service's event stream, shared by the
/// message transport and by query callers.
pub struct Handle {
    pub tx: tokio::sync::mpsc::UnboundedSender<Event>,
}

impl Handle {
    /// Relies on tokio::sync::mpsc::UnboundedSender::send: queues the
    /// event in arrival order unless the consuming service was dropped;
    /// says whether the event was taken.
    #[verifier::external_body]
    pub fn send(&self, event: Event) -> (r: bool) {
        self.tx.send(event).is_ok()
    }
}

} // verus!
