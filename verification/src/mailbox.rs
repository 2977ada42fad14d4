//! The mailbox of a flow: a bounded queue of datagrams.
//!
//! A mailbox that is full drops what arrives. It never grows beyond its
//! capacity and never makes the sender wait.

use std::collections::VecDeque;
use vstd::prelude::*;

verus! {

/// A bounded queue of datagrams, oldest first.
pub struct Mailbox {
    queue: VecDeque<Vec<u8>>,
    limit: usize,
}

impl View for Mailbox {
    type V = Seq<Seq<u8>>;

    /// The datagrams that wait, oldest first.
    closed spec fn view(&self) -> Seq<Seq<u8>> {
        self.queue@.map_values(|d: Vec<u8>| d@)
    }
}

impl Mailbox {
    /// The mailbox holds no more than its capacity.
    pub closed spec fn wf(&self) -> bool {
        self.queue@.len() <= self.limit
    }

    pub closed spec fn spec_capacity(&self) -> usize {
        self.limit
    }

    /// A well-formed mailbox is within its capacity.
    pub proof fn lemma_bounded(&self)
        requires
            self.wf(),
        ensures
            self@.len() <= self.capacity(),
    {
    }

    /// An empty mailbox for at most `capacity` datagrams.
    pub fn new(capacity: usize) -> (mailbox: Mailbox)
        ensures
            mailbox.wf(),
            mailbox@ == Seq::<Seq<u8>>::empty(),
            mailbox.capacity() == capacity,
    {
        let mailbox = Mailbox { queue: VecDeque::new(), limit: capacity };
        mailbox
    }

    /// How many datagrams the mailbox can hold.
    #[verifier::when_used_as_spec(spec_capacity)]
    pub fn capacity(&self) -> (capacity: usize)
        ensures
            capacity == self.spec_capacity(),
    {
        self.limit
    }

    /// How many datagrams wait.
    pub fn len(&self) -> (len: usize)
        ensures
            len == self@.len(),
    {
        self.queue.len()
    }

    /// Whether the next datagram would be dropped.
    pub fn is_full(&self) -> (full: bool)
        ensures
            full == (self@.len() >= self.capacity()),
    {
        self.queue.len() >= self.limit
    }

    /// Puts `datagram` at the end of the queue, unless the mailbox is full:
    /// then the datagram is dropped and the mailbox stays as it was.
    pub fn push(&mut self, datagram: Vec<u8>) -> (accepted: bool)
        requires
            old(self).wf(),
        ensures
            final(self).wf(),
            final(self).capacity() == old(self).capacity(),
            accepted == (old(self)@.len() < old(self).capacity()),
            final(self)@ == (if accepted {
                old(self)@.push(datagram@)
            } else {
                old(self)@
            }),
    {
        if self.queue.len() < self.limit {
            self.queue.push_back(datagram);
            true
        } else {
            false
        }
    }

    /// Takes the oldest datagram out, if there is one.
    pub fn pop(&mut self) -> (datagram: Option<Vec<u8>>)
        requires
            old(self).wf(),
        ensures
            final(self).wf(),
            final(self).capacity() == old(self).capacity(),
            datagram is Some <==> old(self)@.len() > 0,
            datagram matches Some(d) ==> d@ == old(self)@[0] && final(self)@ == old(
                self,
            )@.drop_first(),
            datagram is None ==> final(self)@ == old(self)@,
    {
        self.queue.pop_front()
    }
}

} // verus!
