use std::collections::VecDeque;
use vstd::prelude::*;

verus! {

/// A first-in first-out queue over a deque. This is the blocking queue's
/// state; the blocking itself is a concern of the surrounding
/// synchronization, which must not call `pop_front` until the queue is
/// non-empty (the condition it waits on, `is_empty`, is offered here too).
pub struct BlockingQueue<T> {
    dequeue: VecDeque<T>,
}

impl<T> View for BlockingQueue<T> {
    type V = Seq<T>;

    closed spec fn view(&self) -> Seq<T> {
        self.dequeue@
    }
}

impl<T> BlockingQueue<T> {
    /// Creates an empty queue.
    pub fn new() -> (r: Self)
        ensures
            r@ == Seq::<T>::empty(),
    {
        Self { dequeue: VecDeque::new() }
    }

    /// Appends `value` at the tail of the queue.
    pub fn push_back(&mut self, value: T)
        ensures
            final(self)@ == old(self)@.push(value),
    {
        self.dequeue.push_back(value);
    }

    /// Removes and returns the head of the queue, preserving FIFO order.
    /// The queue must be non-empty: a caller that may find it empty first
    /// waits until `is_empty` turns false.
    pub fn pop_front(&mut self) -> (r: T)
        requires
            old(self)@.len() > 0,
        ensures
            r == old(self)@[0],
            final(self)@ == old(self)@.skip(1),
    {
        let r = self.dequeue.pop_front();
        proof {
            assert(self@ =~= old(self)@.skip(1));
        }
        r.unwrap()
    }

    /// Returns the element at the head of the queue without removing it: what
    /// the next `pop_front` will return.
    pub fn peek_front(&self) -> (r: Option<&T>)
        ensures
            match r {
                Some(value) => self@.len() > 0 && *value == self@[0],
                None => self@.len() == 0,
            },
    {
        if self.dequeue.len() > 0 {
            Some(&self.dequeue[0])
        } else {
            None
        }
    }

    /// Returns the number of queued elements.
    pub fn len(&self) -> (r: usize)
        ensures
            r == self@.len(),
    {
        self.dequeue.len()
    }

    /// Returns whether the queue is empty: the condition a consumer blocks on.
    pub fn is_empty(&self) -> (r: bool)
        ensures
            r == (self@.len() == 0),
    {
        self.dequeue.len() == 0
    }
}

/// FIFO law: after any sequence of pushes `xs` on an empty queue the queue
/// holds exactly `xs`, and after `i` pops its state is `xs` without its first
/// `i` elements, so the `i`-th pop (by the contract of `pop_front`) returns
/// `xs[i]`: pop order equals push order.
pub proof fn lemma_fifo<T>(xs: Seq<T>, i: int)
    requires
        0 <= i < xs.len(),
    ensures
        Seq::<T>::empty() + xs =~= xs,
        xs.skip(i)[0] == xs[i],
        xs.skip(i).skip(1) =~= xs.skip(i + 1),
{
}

} // verus!
