//! The control channel: an unbounded first-in first-out queue of messages.

use std::collections::VecDeque;
use vstd::prelude::*;
use crate::pool::message::Message;

verus! {

/// A message that could not be sent because nobody is left to receive it.
#[derive(Debug)]
pub struct SendError<J>(pub Message<J>);

/// Why nothing was received.
#[derive(Clone, Copy, Debug, PartialEq, Eq, Structural)]
pub enum TryRecvError {
    /// Nothing is queued, but the sender is still there: wait.
    Empty,
    /// Nothing is queued and the sender is gone: nothing will ever come.
    Disconnected,
}

/// The queue of messages with the number of receivers that still listen and
/// the state of the sending side.
pub struct Channel<J> {
    queue: VecDeque<Message<J>>,
    receivers: usize,
    connected: bool,
}

impl<J> View for Channel<J> {
    type V = Seq<Message<J>>;

    /// The messages queued, oldest first.
    closed spec fn view(&self) -> Seq<Message<J>> {
        self.queue@
    }
}

impl<J> Channel<J> {
    /// How many receivers still listen.
    pub closed spec fn spec_receivers(&self) -> usize {
        self.receivers
    }

    /// Whether the sending side is still there.
    pub closed spec fn spec_is_connected(&self) -> bool {
        self.connected
    }

    /// An empty channel with a sender and `receivers` receivers.
    pub fn new(receivers: usize) -> (channel: Channel<J>)
        ensures
            channel@ == Seq::<Message<J>>::empty(),
            channel.receivers() == receivers,
            channel.is_connected(),
    {
        Channel { queue: VecDeque::new(), receivers, connected: true }
    }

    #[verifier::when_used_as_spec(spec_receivers)]
    pub fn receivers(&self) -> (n: usize)
        ensures
            n == self.spec_receivers(),
    {
        self.receivers
    }

    #[verifier::when_used_as_spec(spec_is_connected)]
    pub fn is_connected(&self) -> (connected: bool)
        ensures
            connected == self.spec_is_connected(),
    {
        self.connected
    }

    /// The number of messages queued.
    pub fn len(&self) -> (n: usize)
        ensures
            n == self@.len(),
    {
        self.queue.len()
    }

    pub fn is_empty(&self) -> (empty: bool)
        ensures
            empty == (self@.len() == 0),
    {
        self.queue.len() == 0
    }

    /// Queues `msg` behind everything sent before it. Never waits.
    ///
    /// Fails, handing the message back, exactly when no receiver is left.
    pub fn send(&mut self, msg: Message<J>) -> (sent: Result<(), SendError<J>>)
        ensures
            final(self).receivers() == old(self).receivers(),
            final(self).is_connected() == old(self).is_connected(),
            old(self).receivers() > 0 ==> sent is Ok && final(self)@ == old(self)@.push(msg),
            old(self).receivers() == 0 ==> sent == Err::<(), SendError<J>>(SendError(msg))
                && final(self)@ == old(self)@,
    {
        if self.receivers == 0 {
            Err(SendError(msg))
        } else {
            self.queue.push_back(msg);
            Ok(())
        }
    }

    /// Takes the oldest message, if there is one. Never waits.
    pub fn try_recv(&mut self) -> (received: Result<Message<J>, TryRecvError>)
        ensures
            final(self).receivers() == old(self).receivers(),
            final(self).is_connected() == old(self).is_connected(),
            old(self)@.len() > 0 ==> received == Ok::<Message<J>, TryRecvError>(old(self)@[0])
                && final(self)@ == old(self)@.skip(1),
            old(self)@.len() == 0 ==> final(self)@ == old(self)@ && received == Err::<
                Message<J>,
                TryRecvError,
            >(
                if old(self).is_connected() {
                    TryRecvError::Empty
                } else {
                    TryRecvError::Disconnected
                },
            ),
    {
        match self.queue.pop_front() {
            Some(msg) => Ok(msg),
            None => if self.connected {
                Err(TryRecvError::Empty)
            } else {
                Err(TryRecvError::Disconnected)
            },
        }
    }

    /// One receiver stops listening.
    pub fn drop_receiver(&mut self)
        requires
            old(self).receivers() > 0,
        ensures
            final(self).receivers() == old(self).receivers() - 1,
            final(self).is_connected() == old(self).is_connected(),
            final(self)@ == old(self)@,
    {
        self.receivers = self.receivers - 1;
    }

    /// The sending side goes away. What is queued can still be received.
    pub fn disconnect(&mut self)
        ensures
            !final(self).is_connected(),
            final(self).receivers() == old(self).receivers(),
            final(self)@ == old(self)@,
    {
        self.connected = false;
    }
}

} // verus!
