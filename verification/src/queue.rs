//! A play queue: the songs already played, the current song, and the songs still to come.
use std::collections::VecDeque;

use vstd::prelude::*;

verus! {

/// The play queue. `previous` holds the songs before `current` (oldest first),
/// `next` the songs after it (nearest first).
#[derive(Debug, Clone, PartialEq, Eq)]
pub struct Queue<T> {
    pub previous: Vec<T>,
    pub current: T,
    pub next: VecDeque<T>,
}

/// The mathematical model of a queue.
pub struct QueueView<T> {
    pub previous: Seq<T>,
    pub current: T,
    pub next: Seq<T>,
}

impl<T> QueueView<T> {
    /// Every song of the queue in play order.
    pub open spec fn items(self) -> Seq<T> {
        self.previous.push(self.current) + self.next
    }

    /// The index of the current song in `items`.
    pub open spec fn position(self) -> nat {
        self.previous.len()
    }

    /// The queue after moving one song forward, if there is a next song.
    pub open spec fn forward(self) -> Option<QueueView<T>> {
        if self.next.len() == 0 {
            None
        } else {
            Some(
                QueueView {
                    previous: self.previous.push(self.current),
                    current: self.next[0],
                    next: self.next.drop_first(),
                },
            )
        }
    }

    /// The queue after moving one song back, if there is a previous song.
    pub open spec fn back(self) -> Option<QueueView<T>> {
        if self.previous.len() == 0 {
            None
        } else {
            Some(
                QueueView {
                    previous: self.previous.drop_last(),
                    current: self.previous.last(),
                    next: seq![self.current] + self.next,
                },
            )
        }
    }
}

impl<T> View for Queue<T> {
    type V = QueueView<T>;

    open spec fn view(&self) -> QueueView<T> {
        QueueView { previous: self.previous@, current: self.current, next: self.next@ }
    }
}

impl<T> Queue<T> {
    /// Moves to the next song. Gives the queue back unchanged as the error when there is none.
    pub fn try_forward(self) -> (r: Result<Self, Self>)
        ensures
            match r {
                Ok(moved) => self@.forward() == Some(moved@),
                Err(same) => self@.forward() is None && same@ == self@,
            },
    {
        let mut q = self;
        match q.next.pop_front() {
            Some(new_current) => {
                let mut previous = q.previous;
                previous.push(q.current);
                let new_queue = Queue { previous, current: new_current, next: q.next };
                proof {
                    let f = self@.forward().unwrap();
                    assert(new_queue@.next =~= f.next);
                    assert(new_queue@.previous =~= f.previous);
                    assert(new_queue@ == f);
                }
                Ok(new_queue)
            },
            None => Err(q),
        }
    }

    /// Moves to the previous song. Gives the queue back unchanged as the error when there is none.
    pub fn try_back(self) -> (r: Result<Self, Self>)
        ensures
            match r {
                Ok(moved) => self@.back() == Some(moved@),
                Err(same) => self@.back() is None && same@ == self@,
            },
    {
        let mut q = self;
        match q.previous.pop() {
            Some(new_current) => {
                let mut next = q.next;
                next.push_front(q.current);
                let new_queue = Queue { previous: q.previous, current: new_current, next };
                proof {
                    let b = self@.back().unwrap();
                    assert(new_queue@.previous =~= b.previous);
                    assert(new_queue@.next =~= b.next);
                    assert(new_queue@ == b);
                }
                Ok(new_queue)
            },
            None => Err(q),
        }
    }
}

/// Moving forward and then back returns to the same queue.
pub proof fn lemma_forward_then_back<T>(q: QueueView<T>)
    requires
        q.forward() is Some,
    ensures
        q.forward().unwrap().back() == Some(q),
{
    let f = q.forward().unwrap();
    assert(f.previous.drop_last() =~= q.previous);
    assert(seq![f.current] + f.next =~= q.next);
}

/// Moving back and then forward returns to the same queue.
pub proof fn lemma_back_then_forward<T>(q: QueueView<T>)
    requires
        q.back() is Some,
    ensures
        q.back().unwrap().forward() == Some(q),
{
    let b = q.back().unwrap();
    assert(b.previous.push(b.current) =~= q.previous);
    assert(b.next.drop_first() =~= q.next);
}

/// Moving through the queue never changes which songs it holds or their order,
/// and moves the current position by exactly one.
pub proof fn lemma_moves_keep_items<T>(q: QueueView<T>)
    ensures
        q.forward() matches Some(f) ==> f.items() == q.items() && f.position() == q.position() + 1,
        q.back() matches Some(b) ==> b.items() == q.items() && b.position() + 1 == q.position(),
{
    if let Some(f) = q.forward() {
        assert(f.items() =~= q.items());
    }
    if let Some(b) = q.back() {
        assert(b.previous.push(b.current) =~= q.previous);
        assert(b.items() =~= q.items());
    }
}

/// The current song is always the item at the current position.
pub proof fn lemma_current_at_position<T>(q: QueueView<T>)
    ensures
        q.position() < q.items().len(),
        q.items()[q.position() as int] == q.current,
{
}

} // verus!
