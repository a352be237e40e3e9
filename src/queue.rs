//! The hand-off of dispatched events from the session to the application.
use vstd::prelude::*;
use std::collections::VecDeque;
use crate::dispatched_event::DispatchedEvent;

verus! {

/// What the application receives when it asks for the next event.
#[derive(Debug)]
pub enum QueueItem {
    Event(DispatchedEvent),
    /// No event yet; the session is still open.
    Pending,
    /// No event, and none will come: the session is closed.
    End,
}

/// A first-in first-out queue of dispatched events, with one producer (the
/// session's read path) and one consumer (the application). Once closed it
/// takes no more events, and hands out those it holds before it ends.
#[derive(Debug)]
pub struct EventQueue {
    items: VecDeque<DispatchedEvent>,
    closed: bool,
}

impl View for EventQueue {
    type V = Seq<DispatchedEvent>;

    /// The events waiting, oldest first.
    closed spec fn view(&self) -> Seq<DispatchedEvent> {
        self.items@
    }
}

/// What `n` successive pops hand out from a queue holding `q`, in order.
pub open spec fn popped(q: Seq<DispatchedEvent>, n: nat) -> Seq<DispatchedEvent>
    decreases n,
{
    if n == 0 || q.len() == 0 {
        Seq::empty()
    } else {
        seq![q[0]] + popped(q.drop_first(), (n - 1) as nat)
    }
}

/// What an open queue holding `q` holds after `items` are pushed one by one.
pub open spec fn pushed(q: Seq<DispatchedEvent>, items: Seq<DispatchedEvent>) -> Seq<DispatchedEvent>
    decreases items.len(),
{
    if items.len() == 0 {
        q
    } else {
        pushed(q.push(items[0]), items.drop_first())
    }
}

impl EventQueue {
    /// Whether the queue was closed.
    pub closed spec fn is_closed(&self) -> bool {
        self.closed
    }

    pub fn new() -> (r: EventQueue)
        ensures
            r@ == Seq::<DispatchedEvent>::empty(),
            !r.is_closed(),
    {
        EventQueue { items: VecDeque::new(), closed: false }
    }

    /// Appends an event behind those waiting; a closed queue drops it.
    pub fn push(&mut self, event: DispatchedEvent)
        ensures
            final(self).is_closed() == old(self).is_closed(),
            old(self).is_closed() ==> final(self)@ == old(self)@,
            !old(self).is_closed() ==> final(self)@ == old(self)@.push(event),
    {
        if !self.closed {
            self.items.push_back(event);
        }
    }

    /// Takes the oldest waiting event; without one, says whether more may come.
    pub fn pop(&mut self) -> (r: QueueItem)
        ensures
            final(self).is_closed() == old(self).is_closed(),
            old(self)@.len() > 0 ==> r == QueueItem::Event(old(self)@[0]) && final(self)@
                == old(self)@.drop_first(),
            old(self)@.len() == 0 ==> final(self)@ == old(self)@ && r == (if old(self).is_closed() {
                QueueItem::End
            } else {
                QueueItem::Pending
            }),
    {
        match self.items.pop_front() {
            Some(e) => QueueItem::Event(e),
            None => if self.closed {
                QueueItem::End
            } else {
                QueueItem::Pending
            },
        }
    }

    /// The number of events waiting.
    pub fn len(&self) -> (r: usize)
        ensures
            r == self@.len(),
    {
        self.items.len()
    }

    /// Ends the stream: no event is taken after this.
    pub fn close(&mut self)
        ensures
            final(self).is_closed(),
            final(self)@ == old(self)@,
    {
        self.closed = true;
    }
}

/// Events pushed onto an open queue come out in the order they were pushed:
/// after pushing `items` onto an empty queue, as many pops hand out exactly
/// `items`, whatever else happens in between that leaves the queue alone.
pub proof fn lemma_queue_is_fifo(items: Seq<DispatchedEvent>)
    ensures
        popped(pushed(Seq::<DispatchedEvent>::empty(), items), items.len()) == items,
{
    lemma_pushed_appends(Seq::<DispatchedEvent>::empty(), items);
    assert(Seq::<DispatchedEvent>::empty() + items =~= items);
    lemma_popped_all(items);
}

proof fn lemma_pushed_appends(q: Seq<DispatchedEvent>, items: Seq<DispatchedEvent>)
    ensures
        pushed(q, items) == q + items,
    decreases items.len(),
{
    if items.len() > 0 {
        lemma_pushed_appends(q.push(items[0]), items.drop_first());
        assert(q.push(items[0]) + items.drop_first() =~= q + items);
    } else {
        assert(q + items =~= q);
    }
}

proof fn lemma_popped_all(q: Seq<DispatchedEvent>)
    ensures
        popped(q, q.len()) == q,
    decreases q.len(),
{
    if q.len() > 0 {
        lemma_popped_all(q.drop_first());
        assert(seq![q[0]] + q.drop_first() =~= q);
    } else {
        assert(q =~= Seq::<DispatchedEvent>::empty());
    }
}

} // verus!
