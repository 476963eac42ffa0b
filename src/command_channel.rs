//! Unbounded, ordered queue of actions from request handling to the actuator.
use crate::action::Action;
use std::collections::VecDeque;
use vstd::prelude::*;

verus! {

/// The consuming side of the queue has stopped: the action was not queued.
#[derive(Debug, Clone, Copy, PartialEq, Eq, Structural)]
pub struct ChannelClosed;

/// A first-in first-out queue of actions with a single consumer.
///
/// Enqueueing never drops an action while the consumer is running; once the
/// consumer has stopped, every enqueue fails and changes nothing.
pub struct CommandChannel {
    pending: VecDeque<Action>,
    open: bool,
}

impl CommandChannel {
    /// The actions waiting, oldest first.
    pub closed spec fn queued(&self) -> Seq<Action> {
        self.pending@
    }

    /// Whether the consumer is still running.
    pub closed spec fn is_open(&self) -> bool {
        self.open
    }

    /// An open, empty queue.
    pub fn new() -> (r: CommandChannel)
        ensures
            r.is_open(),
            r.queued() == Seq::<Action>::empty(),
    {
        CommandChannel { pending: VecDeque::new(), open: true }
    }

    /// Appends `action`, or fails with [`ChannelClosed`] once the consumer has stopped.
    pub fn enqueue(&mut self, action: Action) -> (r: Result<(), ChannelClosed>)
        ensures
            old(self).is_open() ==> r == Ok::<(), ChannelClosed>(()) && final(self).queued()
                == old(self).queued().push(action) && final(self).is_open(),
            !old(self).is_open() ==> r == Err::<(), ChannelClosed>(ChannelClosed) && *final(self)
                == *old(self),
    {
        if self.open {
            self.pending.push_back(action);
            Ok(())
        } else {
            Err(ChannelClosed)
        }
    }

    /// Removes and returns the oldest waiting action.
    pub fn next(&mut self) -> (r: Option<Action>)
        ensures
            final(self).is_open() == old(self).is_open(),
            old(self).queued().len() == 0 ==> r.is_none() && final(self).queued() == old(self).queued(),
            old(self).queued().len() > 0 ==> r == Some(old(self).queued()[0])
                && final(self).queued() == old(self).queued().drop_first(),
    {
        self.pending.pop_front()
    }

    /// Marks the consumer as stopped; the actions still waiting are discarded.
    pub fn close(&mut self)
        ensures
            !final(self).is_open(),
            final(self).queued() == Seq::<Action>::empty(),
    {
        self.open = false;
        self.pending.clear();
    }

    /// Whether the consumer is still running.
    pub fn is_closed(&self) -> (r: bool)
        ensures
            r == !self.is_open(),
    {
        !self.open
    }

    /// The number of actions waiting.
    pub fn len(&self) -> (r: usize)
        ensures
            r == self.queued().len(),
    {
        self.pending.len()
    }
}

} // verus!
