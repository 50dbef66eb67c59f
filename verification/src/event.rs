//! What one bounded wait on a channel can end in.

use vstd::prelude::*;

verus! {

/// The outcome of waiting on a channel for at most one deadline.
#[derive(Debug)]
pub enum Received<T> {
    /// A message arrived in time.
    Message(T),
    /// The deadline passed and nothing arrived.
    Timeout,
    /// Every sender is gone: nothing will ever arrive.
    Disconnected,
}

impl<T> Received<T> {
    /// Whether the wait ended without a message.
    pub open spec fn is_silence(self) -> bool {
        !(self is Message)
    }
}

} // verus!
