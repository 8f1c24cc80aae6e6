//! The bounded hardware command channel.
//!
//! Cross-task communication goes exclusively through one bounded
//! multi-producer/single-consumer channel of [`ControlMessage`] values.
//! Producers never block: sending into a full channel fails immediately with
//! [`Error::Busy`], a deliberate backpressure policy. The channel itself is
//! embassy-sync's bounded MPMC channel; its contents are modeled by the
//! uninterpreted sequence [`queue_contents`], and every method the core calls
//! is wrapped with a contract that states what the channel's source shows:
//! sends append, receives pop the front, order is first-in first-out.

use vstd::prelude::*;

use crate::error::Error;
use crate::led::ControlMessage;

verus! {

/// How many control messages the channel buffers before senders see
/// [`Error::Busy`].
pub const CHANNEL_CAPACITY: usize = 4;

/// The bounded channel of hardware control messages, backed by
/// `embassy_sync::channel::Channel` with capacity [`CHANNEL_CAPACITY`].
#[verifier::external_body]
pub struct CommandQueue {
    inner: embassy_sync::channel::Channel<
        embassy_sync::blocking_mutex::raw::CriticalSectionRawMutex,
        ControlMessage,
        4,
    >,
}

/// The messages buffered in the channel, oldest first.
pub uninterp spec fn queue_contents(q: CommandQueue) -> Seq<ControlMessage>;

impl CommandQueue {
    /// Relies on `embassy_sync::channel::Channel::new`: a new channel buffers
    /// no messages.
    #[verifier::external_body]
    pub fn new() -> (q: CommandQueue)
        ensures
            queue_contents(q) == Seq::<ControlMessage>::empty(),
    {
        CommandQueue { inner: embassy_sync::channel::Channel::new() }
    }

    /// Relies on `embassy_sync::channel::Channel::len`: the number of
    /// messages currently buffered.
    #[verifier::external_body]
    pub fn len(&self) -> (n: usize)
        ensures
            n == queue_contents(*self).len(),
    {
        self.inner.len()
    }

    /// Relies on `embassy_sync::channel::Channel::try_send`: the message is
    /// appended when a buffer slot is free, and rejected without blocking
    /// when the channel already holds its capacity of messages.
    #[verifier::external_body]
    pub fn try_send(&mut self, message: ControlMessage) -> (r: Result<(), Error>)
        ensures
            queue_contents(*old(self)).len() < CHANNEL_CAPACITY ==> (r == Ok::<(), Error>(())
                && queue_contents(*final(self)) == queue_contents(*old(self)).push(message)),
            queue_contents(*old(self)).len() >= CHANNEL_CAPACITY ==> (r == Err::<(), Error>(
                Error::Busy,
            ) && queue_contents(*final(self)) == queue_contents(*old(self))),
    {
        self.inner.try_send(message).map_err(|_| Error::Busy)
    }

    /// Relies on `embassy_sync::channel::Channel::try_receive`: messages come
    /// out oldest first; receiving from an empty channel fails without
    /// blocking.
    #[verifier::external_body]
    pub fn try_receive(&mut self) -> (r: Option<ControlMessage>)
        ensures
            queue_contents(*old(self)).len() == 0 ==> (r is None && queue_contents(*final(self))
                == queue_contents(*old(self))),
            queue_contents(*old(self)).len() > 0 ==> (r == Some(queue_contents(*old(self))[0])
                && queue_contents(*final(self)) == queue_contents(*old(self)).drop_first()),
    {
        self.inner.try_receive().ok()
    }
}

} // verus!
