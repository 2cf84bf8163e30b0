//! The hand-off of audio between the thread that steps the core and the one
//! that plays: a single slot. The producer waits while the slot is full; the
//! consumer takes a batch only when its sink has finished the one before.

use vstd::prelude::*;

verus! {

/// The slot between producer and consumer.
#[derive(Clone, Debug, PartialEq, Eq)]
pub struct AudioBridge {
    /// Whether anything plays audio; without a consumer, batches are dropped.
    pub enabled: bool,
    /// The batch that waits for the consumer.
    pub slot: Option<Vec<i16>>,
}

/// What became of a batch that was offered.
#[derive(Clone, Debug, PartialEq, Eq)]
pub enum Offer {
    /// The batch is in the slot.
    Accepted,
    /// Nothing plays audio: the batch was dropped.
    Discarded,
    /// The slot is full: the batch comes back, to be offered again once the
    /// consumer has taken the one that waits.
    Busy(Vec<i16>),
}

impl AudioBridge {
    /// An empty slot.
    pub fn new(enabled: bool) -> (bridge: AudioBridge)
        ensures
            bridge.enabled == enabled,
            bridge.slot is None,
    {
        AudioBridge { enabled, slot: None }
    }

    /// Offers a batch. It is dropped when nothing plays audio, goes into the
    /// slot when the slot is free, and comes back unchanged when it is not.
    pub fn offer(&mut self, batch: Vec<i16>) -> (offer: Offer)
        ensures
            final(self).enabled == old(self).enabled,
            !old(self).enabled ==> offer is Discarded && final(self).slot == old(self).slot,
            old(self).enabled && old(self).slot is None ==> offer is Accepted && final(self).slot
                == Some(batch),
            old(self).enabled && old(self).slot is Some ==> offer == Offer::Busy(batch)
                && final(self).slot == old(self).slot,
    {
        if !self.enabled {
            Offer::Discarded
        } else if self.slot.is_some() {
            Offer::Busy(batch)
        } else {
            self.slot = Some(batch);
            Offer::Accepted
        }
    }

    /// Takes the waiting batch for playback. While the sink still plays the
    /// batch before, nothing is taken and the slot stays as it is.
    pub fn take(&mut self, sink_idle: bool) -> (batch: Option<Vec<i16>>)
        ensures
            final(self).enabled == old(self).enabled,
            sink_idle ==> batch == old(self).slot && final(self).slot is None,
            !sink_idle ==> batch is None && final(self).slot == old(self).slot,
    {
        if sink_idle {
            self.slot.take()
        } else {
            None
        }
    }
}

} // verus!
