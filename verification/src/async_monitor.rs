//! The consumer's end of the bridge between a blocking monitor and a
//! consumer that must not block.
//!
//! A producer thread pulls from the monitor and sends each result into a
//! bounded channel; the consumer takes them out at its own pace. The channel
//! hands results over in the order in which they were sent, and holds the
//! producer back once `CHANNEL_CAPACITY` results wait in it.

use crate::error::MonitorError;
use crate::monitor::Focus;
use tokio::sync::mpsc::error::TryRecvError;
use tokio::sync::mpsc::Receiver;
use vstd::prelude::*;

verus! {

/// How many results may wait in the channel before the producer is held back.
pub const CHANNEL_CAPACITY: usize = 100;

/// `tokio::sync::mpsc::Receiver`, the receiving half of a bounded channel.
/// It is carried as it is: nothing is known here of what waits in it.
#[verifier::external_type_specification]
#[verifier::external_body]
#[verifier::reject_recursive_types(T)]
pub struct ExReceiver<T>(tokio::sync::mpsc::Receiver<T>);

/// What a look into the channel found.
#[derive(Debug, PartialEq, Eq)]
pub enum Polled {
    /// The result that waited longest.
    Item(Focus),
    /// Nothing waits, but the producer may still send.
    Empty,
    /// Nothing waits, and the producer is gone.
    Closed,
}

/// Looks into the channel without waiting: `Receiver::try_recv`, with its
/// two errors told apart. What is found depends on what the producer has
/// sent by now, so nothing is claimed of it.
#[verifier::external_body]
fn poll(rx: &mut Receiver<Focus>) -> (polled: Polled) {
    match rx.try_recv() {
        Ok(item) => Polled::Item(item),
        Err(TryRecvError::Empty) => Polled::Empty,
        Err(TryRecvError::Disconnected) => Polled::Closed,
    }
}

/// A focus monitor that is read without blocking.
pub struct AsyncFocusMonitor {
    /// The channel that the producer thread fills.
    pub rx: Receiver<Focus>,
}

impl AsyncFocusMonitor {
    /// The monitor that reads from `rx`.
    pub fn new(rx: Receiver<Focus>) -> (monitor: AsyncFocusMonitor)
        ensures
            monitor.rx == rx,
    {
        AsyncFocusMonitor { rx }
    }

    /// What the consumer is handed for what was found in the channel: the
    /// result itself where one waited, and else the reason why there is none.
    pub open spec fn delivered(polled: Polled) -> Focus {
        match polled {
            Polled::Item(item) => item,
            Polled::Empty => Err(MonitorError::ChannelEmpty),
            Polled::Closed => Err(MonitorError::ChannelClosed),
        }
    }

    /// Turns what was found in the channel into what the consumer is handed.
    pub fn deliver(polled: Polled) -> (focus: Focus)
        ensures
            focus == Self::delivered(polled),
    {
        match polled {
            Polled::Item(item) => item,
            Polled::Empty => Err(MonitorError::ChannelEmpty),
            Polled::Closed => Err(MonitorError::ChannelClosed),
        }
    }

    /// The next result if one waits in the channel, without blocking;
    /// `ChannelEmpty` if none waits yet, `ChannelClosed` if none will come.
    /// Which of these it is lies with the producer: the result is
    /// [`Self::deliver`] of what the channel gave.
    pub fn try_recv(&mut self) -> (focus: Focus) {
        let polled = poll(&mut self.rx);
        Self::deliver(polled)
    }
}

} // verus!
