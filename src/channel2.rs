//! A one-shot channel that is split into a sender and a receiver.
//!
//! Splitting resets the channel, dropping any message that was left in it,
//! and hands out one sender and one receiver; each is used up by its single
//! operation, so a second send or receive on one split cannot be written.
//! A receive that finds no message is reported.
use vstd::prelude::*;

verus! {

/// A receive that found no message.
#[derive(Debug, Clone, Copy, PartialEq, Eq, Structural)]
pub struct NoMessage {}

/// Whether a receiver whose swap of `false` into the ready flag found
/// `was_ready` may take the message.
pub fn receive_step(was_ready: bool) -> (may_take: bool)
    ensures
        may_take == was_ready,
{
    was_ready
}

/// A channel's slot and ready flag.
pub struct OneShotChannel<T> {
    message: Option<T>,
    ready: bool,
}

/// The right to send one message.
pub struct Sender {}

/// The right to receive one message.
pub struct Receiver {}

impl<T> OneShotChannel<T> {
    pub closed spec fn ready(&self) -> bool {
        self.ready
    }

    pub closed spec fn message(&self) -> Option<T> {
        self.message
    }

    /// The slot holds a message exactly while the channel is ready.
    pub open spec fn wf(&self) -> bool {
        self.message() is Some <==> self.ready()
    }

    pub fn new() -> (c: Self)
        ensures
            c.wf(),
            !c.ready(),
    {
        OneShotChannel { message: None, ready: false }
    }

    /// Resets the channel, dropping a message that nobody received, and
    /// hands out a fresh sender and receiver.
    pub fn split(&mut self) -> (r: (Sender, Receiver))
        ensures
            final(self).wf(),
            !final(self).ready(),
    {
        self.message = None;
        self.ready = false;
        (Sender {}, Receiver {})
    }

    /// Whether dropping the channel now destroys a message that nobody
    /// received.
    pub fn holds_message(&self) -> (r: bool)
        requires
            self.wf(),
        ensures
            r == (self.message() is Some),
    {
        self.ready
    }
}

impl Sender {
    /// Writes the message and marks the channel ready.
    pub fn send<T>(self, channel: &mut OneShotChannel<T>, message: T)
        requires
            old(channel).wf(),
            !old(channel).ready(),
        ensures
            final(channel).wf(),
            final(channel).ready(),
            final(channel).message() == Some(message),
    {
        channel.message = Some(message);
        channel.ready = true;
    }
}

impl Receiver {
    pub fn is_ready<T>(&self, channel: &OneShotChannel<T>) -> (r: bool)
        ensures
            r == channel.ready(),
    {
        channel.ready
    }

    /// Takes the message; reports when there is none.
    pub fn receive<T>(self, channel: &mut OneShotChannel<T>) -> (r: Result<T, NoMessage>)
        requires
            old(channel).wf(),
        ensures
            final(channel).wf(),
            !final(channel).ready(),
            old(channel).ready() ==> r == Ok::<T, NoMessage>(old(channel).message()->Some_0),
            !old(channel).ready() ==> r is Err && final(channel).message() == old(channel).message(),
    {
        let was_ready = channel.ready;
        channel.ready = false;
        if receive_step(was_ready) {
            Ok(channel.message.take().unwrap())
        } else {
            Err(NoMessage {})
        }
    }
}

} // verus!
