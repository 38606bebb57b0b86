//! A one-shot channel that checks its own protocol at run time.
//!
//! The channel moves through `EMPTY -> WRITING -> READY -> DONE`. A second
//! send, or a receive that does not find a ready message, is reported as an
//! error instead of touching the slot.
use vstd::prelude::*;

verus! {

/// Nothing has been sent yet.
pub const EMPTY: u8 = 0;
/// A sender has claimed the slot and is writing the message.
pub const WRITING: u8 = 1;
/// The message is in the slot, waiting to be received.
pub const READY: u8 = 2;
/// The message has been taken out.
pub const DONE: u8 = 3;

/// A broken use of a one-shot channel.
#[derive(Debug, Clone, Copy, PartialEq, Eq, Structural)]
pub enum ChannelError {
    /// A message was sent already.
    AlreadySent,
    /// No message is ready yet.
    NoMessage,
    /// The message was received already.
    AlreadyReceived,
}

impl ChannelError {
    /// The text that describes the error.
    pub fn message(&self) -> (r: &'static str)
        ensures
            *self == ChannelError::AlreadySent ==> r@ == "Can't send more than one message!"@,
            *self == ChannelError::NoMessage ==> r@ == "No message!"@,
            *self == ChannelError::AlreadyReceived ==> r@ == "Can't read message more than once!"@,
    {
        match self {
            ChannelError::AlreadySent => "Can't send more than one message!",
            ChannelError::NoMessage => "No message!",
            ChannelError::AlreadyReceived => "Can't read message more than once!",
        }
    }
}

/// The state word's value after a send that found `state`.
pub open spec fn send_spec(state: u8) -> Result<u8, ChannelError> {
    if state == EMPTY {
        Ok(WRITING)
    } else {
        Err(ChannelError::AlreadySent)
    }
}

/// The state word's value after a receive that found `state`.
pub open spec fn receive_spec(state: u8) -> Result<u8, ChannelError> {
    if state == READY {
        Ok(DONE)
    } else if state == DONE {
        Err(ChannelError::AlreadyReceived)
    } else {
        Err(ChannelError::NoMessage)
    }
}

/// Decides a send from the state word that the claiming compare-and-swap
/// found: only an empty channel may be written, and it moves to `WRITING`.
pub fn send_transition(state: u8) -> (r: Result<u8, ChannelError>)
    ensures
        r == send_spec(state),
{
    if state == EMPTY {
        Ok(WRITING)
    } else {
        Err(ChannelError::AlreadySent)
    }
}

/// Decides a receive from the state word that the taking compare-and-swap
/// found: only a ready message may be taken, and the channel moves to `DONE`.
pub fn receive_transition(state: u8) -> (r: Result<u8, ChannelError>)
    ensures
        r == receive_spec(state),
{
    if state == READY {
        Ok(DONE)
    } else if state == DONE {
        Err(ChannelError::AlreadyReceived)
    } else {
        Err(ChannelError::NoMessage)
    }
}

/// Whether a channel dropped in `state` still holds a message that it must
/// destroy: one was written and nobody took it.
pub fn holds_unclaimed(state: u8) -> (r: bool)
    ensures
        r == !(state == EMPTY || state == DONE),
{
    !(state == EMPTY || state == DONE)
}

/// What a channel holds: its state word and its message slot.
pub struct ChannelView<T> {
    pub state: u8,
    pub message: Option<T>,
}

/// Send a message once. Receive the message once.
pub struct OneShotChannel<T> {
    message: Option<T>,
    state: u8,
}

impl<T> View for OneShotChannel<T> {
    type V = ChannelView<T>;

    closed spec fn view(&self) -> ChannelView<T> {
        ChannelView { state: self.state, message: self.message }
    }
}

/// A channel at rest: its state is one of the resting states, and the slot
/// holds a message exactly while the channel is ready.
pub open spec fn channel_wf<T>(c: ChannelView<T>) -> bool {
    &&& (c.state == EMPTY || c.state == READY || c.state == DONE)
    &&& (c.message is Some <==> c.state == READY)
}

/// The channel after a send of `m` on `c`, and what the send reports.
pub open spec fn send_step<T>(c: ChannelView<T>, m: T) -> (ChannelView<T>, Result<(), ChannelError>) {
    if c.state == EMPTY {
        (ChannelView { state: READY, message: Some(m) }, Ok(()))
    } else {
        (c, Err(ChannelError::AlreadySent))
    }
}

/// The channel after a receive on `c`, and what the receive returns.
pub open spec fn receive_step<T>(c: ChannelView<T>) -> (ChannelView<T>, Result<T, ChannelError>) {
    if c.state == READY {
        (ChannelView { state: DONE, message: None }, Ok(c.message->Some_0))
    } else if c.state == DONE {
        (c, Err(ChannelError::AlreadyReceived))
    } else {
        (c, Err(ChannelError::NoMessage))
    }
}

impl<T> OneShotChannel<T> {
    pub fn new() -> (c: Self)
        ensures
            c@ == (ChannelView::<T> { state: EMPTY, message: None }),
    {
        OneShotChannel { message: None, state: EMPTY }
    }

    /// Sends `message`. A channel that has had a message already refuses it
    /// and stays as it is.
    pub fn send(&mut self, message: T) -> (r: Result<(), ChannelError>)
        requires
            channel_wf(old(self)@),
        ensures
            (final(self)@, r) == send_step(old(self)@, message),
            channel_wf(final(self)@),
    {
        match send_transition(self.state) {
            Ok(writing) => {
                self.state = writing;
                self.message = Some(message);
                self.state = READY;
                Ok(())
            },
            Err(e) => Err(e),
        }
    }

    pub fn is_ready(&self) -> (r: bool)
        ensures
            r == (self@.state == READY),
    {
        self.state == READY
    }

    /// Takes the message out. Reports an error, and leaves the channel as it
    /// is, when no message is ready or it was taken already.
    pub fn receive(&mut self) -> (r: Result<T, ChannelError>)
        requires
            channel_wf(old(self)@),
        ensures
            (final(self)@, r) == receive_step(old(self)@),
            channel_wf(final(self)@),
    {
        match receive_transition(self.state) {
            Ok(done) => {
                self.state = done;
                let m = self.message.take();
                match m {
                    Some(v) => Ok(v),
                    None => Err(ChannelError::NoMessage),
                }
            },
            Err(e) => Err(e),
        }
    }

    /// Whether dropping the channel now destroys a message that nobody
    /// received.
    pub fn holds_message(&self) -> (r: bool)
        requires
            channel_wf(self@),
        ensures
            r == (self@.message is Some),
    {
        holds_unclaimed(self.state)
    }
}

/// A message sent on a fresh channel comes back unchanged from the first
/// receive, and the channel then holds nothing.
pub proof fn lemma_send_then_receive<T>(m: T)
    ensures
        ({
            let sent = send_step(ChannelView::<T> { state: EMPTY, message: None }, m);
            let got = receive_step(sent.0);
            &&& sent.1 == Ok::<(), ChannelError>(())
            &&& got.1 == Ok::<T, ChannelError>(m)
            &&& got.0.message is None
        }),
{
}

/// A receive that finds no message sent reports it and changes nothing; a
/// second receive after a successful one reports that the message is gone.
pub proof fn lemma_receive_without_message<T>(c: ChannelView<T>)
    requires
        channel_wf(c),
        c.state != READY,
    ensures
        receive_step(c).0 == c,
        receive_step(c).1 is Err,
        c.state == EMPTY ==> receive_step(c).1 == Err::<T, ChannelError>(ChannelError::NoMessage),
        c.state == DONE ==> receive_step(c).1 == Err::<T, ChannelError>(ChannelError::AlreadyReceived),
{
}

/// Once a message has been sent, every further send is refused and leaves
/// the channel, and the message in it, as they were.
pub proof fn lemma_second_send_refused<T>(c: ChannelView<T>, m1: T, m2: T)
    requires
        channel_wf(c),
        c.state == EMPTY,
    ensures
        ({
            let first = send_step(c, m1);
            let second = send_step(first.0, m2);
            &&& second.1 == Err::<(), ChannelError>(ChannelError::AlreadySent)
            &&& second.0 == first.0
            &&& second.0.message == Some(m1)
        }),
{
}

/// An unclaimed message is destroyed by the channel exactly when it was sent
/// and not received: a received message is owned by the receiver alone.
pub proof fn lemma_unclaimed_owned_once<T>(c: ChannelView<T>, m: T)
    requires
        channel_wf(c),
        c.state == EMPTY,
    ensures
        send_step(c, m).0.message == Some(m),
        receive_step(send_step(c, m).0).0.message is None,
        receive_step(send_step(c, m).0).1 == Ok::<T, ChannelError>(m),
{
}

} // verus!
