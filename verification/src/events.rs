//! Pruner lifecycle events and the channels that carry them: a watch channel
//! delivers the finished height of the extension consumers, and a broadcast
//! channel fans pruner events out to any number of listeners.

use vstd::prelude::*;

use crate::prune_types::{PruneProgress, PruneSegment};

verus! {

/// The lowest "finished height" reported by the extension consumers.
#[derive(Clone, Copy, Debug, PartialEq, Eq, Structural)]
pub enum FinishedExExHeight {
    /// No extension consumers are installed, so pruning may proceed freely.
    NoExExs,
    /// Not every consumer has reported a finished height yet; nothing may be
    /// pruned.
    NotReady,
    /// Every consumer has processed the chain up to this height.
    Height(u64),
}

/// A lifecycle event emitted by the pruner.
#[derive(Clone, Debug, PartialEq, Eq)]
pub enum PrunerEvent {
    /// A run started at the given tip.
    Started {
        /// The tip the run was invoked with, after consumer adjustment.
        tip_block_number: u64,
    },
    /// A run finished.
    Finished {
        /// The tip the run was invoked with, after consumer adjustment.
        tip_block_number: u64,
        /// Wall-clock duration of the run, in milliseconds.
        elapsed_millis: u64,
        /// Deleted-entry count and progress of each segment that pruned
        /// anything, in iteration order.
        stats: Vec<(PruneSegment, usize, PruneProgress)>,
    },
}

#[verifier::external_type_specification]
#[verifier::external_body]
#[verifier::reject_recursive_types(T)]
/// A handle on the latest value of a watch channel.
pub struct ExWatchReceiver<T>(tokio::sync::watch::Receiver<T>);

#[verifier::external_type_specification]
#[verifier::external_body]
#[verifier::reject_recursive_types(T)]
/// The sending half of a broadcast channel.
pub struct ExBroadcastSender<T>(tokio::sync::broadcast::Sender<T>);

#[verifier::external_type_specification]
#[verifier::external_body]
#[verifier::reject_recursive_types(T)]
/// A listener on a broadcast channel.
pub struct ExBroadcastReceiver<T>(tokio::sync::broadcast::Receiver<T>);

/// Relies on tokio's `watch::Receiver::borrow`: yields the value most
/// recently sent on the channel, or the channel's initial value. Which value
/// that is depends on the senders, so nothing is stated of it.
#[verifier::external_body]
pub(crate) fn current_finished_height(
    rx: &tokio::sync::watch::Receiver<FinishedExExHeight>,
) -> FinishedExExHeight {
    *rx.borrow()
}

/// Relies on tokio's `watch::channel`: a receiver whose channel was opened
/// with no consumers reported; the sending half is dropped.
#[verifier::external_body]
pub(crate) fn no_exexs_receiver() -> tokio::sync::watch::Receiver<FinishedExExHeight> {
    tokio::sync::watch::channel(FinishedExExHeight::NoExExs).1
}

/// Relies on tokio's `broadcast::channel`: a fresh fan-out channel handle;
/// slow listeners miss events rather than block the sender.
#[verifier::external_body]
pub(crate) fn pruner_event_channel() -> tokio::sync::broadcast::Sender<PrunerEvent> {
    tokio::sync::broadcast::channel(2000).0
}

/// Relies on tokio's `broadcast::Sender::subscribe`: a new listener that
/// receives events sent from now on.
#[verifier::external_body]
pub(crate) fn subscribe_events(
    sender: &tokio::sync::broadcast::Sender<PrunerEvent>,
) -> tokio::sync::broadcast::Receiver<PrunerEvent> {
    sender.subscribe()
}

/// Relies on tokio's `broadcast::Sender::send`: fire-and-forget fan-out; a
/// send with no listeners fails, and the error is dropped.
#[verifier::external_body]
pub(crate) fn notify_event(
    sender: &tokio::sync::broadcast::Sender<PrunerEvent>,
    event: PrunerEvent,
) {
    let _ = sender.send(event);
}

} // verus!
