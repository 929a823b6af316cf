//! The endpoints that a listener was handed and that nobody has accepted yet,
//! and the tasks that wait for the next one.

use std::collections::VecDeque;
use vstd::prelude::*;

verus! {

/// The outcome of asking for something that may not be there yet.
#[derive(Debug)]
pub enum Poll<T> {
    /// It was there.
    Ready(T),
    /// It was not there: the waker of the task is kept.
    Pending,
}

/// A queue of arrivals of type `T` and the wakers of type `W` of the tasks
/// that wait for one.
#[derive(Debug)]
pub struct Queue<T, W> {
    items: VecDeque<T>,
    wakers: Vec<W>,
}

/// The contents of a queue, oldest first.
#[verifier::ext_equal]
pub struct QueueView<T, W> {
    pub items: Seq<T>,
    pub wakers: Seq<W>,
}

impl<T, W> QueueView<T, W> {
    pub open spec fn empty() -> QueueView<T, W> {
        QueueView { items: Seq::empty(), wakers: Seq::empty() }
    }

    /// No task waits while an arrival is there to be taken.
    pub open spec fn wf(self) -> bool {
        self.items.len() == 0 || self.wakers.len() == 0
    }

    /// After `item` has arrived: every task that waited is woken.
    pub open spec fn arrived(self, item: T) -> QueueView<T, W> {
        QueueView { items: self.items.push(item), wakers: Seq::empty() }
    }

    /// After the oldest arrival was taken.
    pub open spec fn taken(self) -> QueueView<T, W> {
        QueueView { items: self.items.skip(1), ..self }
    }

    /// After a task that found no arrival has left its waker.
    pub open spec fn parked(self, waker: W) -> QueueView<T, W> {
        QueueView { wakers: self.wakers.push(waker), ..self }
    }
}

impl<T, W> View for Queue<T, W> {
    type V = QueueView<T, W>;

    closed spec fn view(&self) -> QueueView<T, W> {
        QueueView { items: self.items@, wakers: self.wakers@ }
    }
}

impl<T, W> Default for Queue<T, W> {
    fn default() -> (queue: Queue<T, W>)
        ensures
            queue@ == QueueView::<T, W>::empty(),
            queue@.items.len() == 0,
            queue@.wakers.len() == 0,
            queue@.wf(),
    {
        Queue { items: VecDeque::new(), wakers: Vec::new() }
    }
}

impl<T, W> Queue<T, W> {
    /// Adds an arrival and hands out the wakers of all tasks that waited, in
    /// the order in which they came.
    pub fn arrive(&mut self, item: T) -> (wakers: Vec<W>)
        ensures
            final(self)@ == old(self)@.arrived(item),
            wakers@ == old(self)@.wakers,
            final(self)@.items == old(self)@.items.push(item),
            final(self)@.wakers.len() == 0,
            final(self)@.wf(),
    {
        self.items.push_back(item);
        let mut wakers: Vec<W> = Vec::new();
        std::mem::swap(&mut self.wakers, &mut wakers);
        wakers
    }

    /// Takes the oldest arrival. Where there is none, keeps a clone of `waker`.
    pub fn poll(&mut self, waker: &W) -> (result: Poll<T>) where W: Clone
        ensures
            match result {
                Poll::Ready(item) => {
                    &&& old(self)@.items.len() > 0
                    &&& item == old(self)@.items[0]
                    &&& final(self)@ == old(self)@.taken()
                    &&& final(self)@.items == old(self)@.items.skip(1)
                    &&& final(self)@.wakers == old(self)@.wakers
                },
                Poll::Pending => {
                    &&& old(self)@.items.len() == 0
                    &&& exists|kept: W| #[trigger]
                        cloned(*waker, kept) && final(self)@ == old(self)@.parked(kept)
                            && final(self)@.wakers == old(self)@.wakers.push(kept)
                    &&& final(self)@.items == old(self)@.items
                },
            },
            old(self)@.wf() ==> final(self)@.wf(),
    {
        match self.items.pop_front() {
            Some(item) => {
                assert(self@ =~= old(self)@.taken());
                Poll::Ready(item)
            },
            None => {
                let kept: W = waker.clone();
                self.wakers.push(kept);
                assert(cloned(*waker, kept) && self@ =~= old(self)@.parked(kept));
                Poll::Pending
            },
        }
    }
}

/// One thing that happens to a queue.
pub enum Event<T, W> {
    /// An item arrives.
    Arrive(T),
    /// A task asks for an item. Where there is none, this waker is kept.
    Poll(W),
}

/// What has become of a queue.
#[verifier::ext_equal]
pub struct History<T, W> {
    /// The queue as it is.
    pub queue: QueueView<T, W>,
    /// The items that tasks were given, in this order.
    pub accepted: Seq<T>,
    /// The wakers that were kept, in this order.
    pub kept: Seq<W>,
    /// The wakers that were handed out, in this order.
    pub woken: Seq<W>,
}

impl<T, W> History<T, W> {
    /// A new queue, to which nothing has happened.
    pub open spec fn new() -> History<T, W> {
        History {
            queue: QueueView::empty(),
            accepted: Seq::empty(),
            kept: Seq::empty(),
            woken: Seq::empty(),
        }
    }

    /// After one more event.
    pub open spec fn after(self, event: Event<T, W>) -> History<T, W> {
        match event {
            Event::Arrive(item) => History {
                queue: self.queue.arrived(item),
                woken: self.woken + self.queue.wakers,
                ..self
            },
            Event::Poll(waker) => if self.queue.items.len() > 0 {
                History {
                    queue: self.queue.taken(),
                    accepted: self.accepted.push(self.queue.items[0]),
                    ..self
                }
            } else {
                History { queue: self.queue.parked(waker), kept: self.kept.push(waker), ..self }
            },
        }
    }

    /// After all of `events` have happened to a new queue.
    pub open spec fn of(events: Seq<Event<T, W>>) -> History<T, W>
        decreases events.len(),
    {
        if events.len() == 0 {
            History::new()
        } else {
            History::of(events.drop_last()).after(events.last())
        }
    }
}

/// The items that arrive in the course of `events`, in this order.
pub open spec fn arrivals<T, W>(events: Seq<Event<T, W>>) -> Seq<T>
    decreases events.len(),
{
    if events.len() == 0 {
        Seq::empty()
    } else {
        match events.last() {
            Event::Arrive(item) => arrivals(events.drop_last()).push(item),
            Event::Poll(_) => arrivals(events.drop_last()),
        }
    }
}

/// The number of items that are left to be taken after `events`: each arrival
/// adds one, and each request for one takes one where there is one.
pub open spec fn waiting_items<T, W>(events: Seq<Event<T, W>>) -> nat
    decreases events.len(),
{
    if events.len() == 0 {
        0
    } else {
        let before = waiting_items(events.drop_last());
        match events.last() {
            Event::Arrive(_) => before + 1,
            Event::Poll(_) => if before == 0 {
                0
            } else {
                (before - 1) as nat
            },
        }
    }
}

/// The wakers of all tasks that asked when no item was left, in this order.
pub open spec fn unserved<T, W>(events: Seq<Event<T, W>>) -> Seq<W>
    decreases events.len(),
{
    if events.len() == 0 {
        Seq::empty()
    } else {
        match events.last() {
            Event::Poll(waker) if waiting_items(events.drop_last()) == 0 => unserved(
                events.drop_last(),
            ).push(waker),
            _ => unserved(events.drop_last()),
        }
    }
}

/// What each thing that happens to a queue does to what it holds. An arrival
/// goes behind the items and clears the wakers, a taken item leaves from the
/// front, and a waker goes behind all the others, however many there are.
pub proof fn queue_holds_all_it_was_given<T, W>(queue: QueueView<T, W>, item: T, waker: W)
    ensures
        QueueView::<T, W>::empty().items == Seq::<T>::empty(),
        QueueView::<T, W>::empty().wakers == Seq::<W>::empty(),
        queue.arrived(item).items == queue.items.push(item),
        queue.arrived(item).wakers == Seq::<W>::empty(),
        queue.parked(waker).items == queue.items,
        queue.parked(waker).wakers == queue.wakers.push(waker),
        queue.taken().wakers == queue.wakers,
        queue.items.len() > 0 ==> seq![queue.items[0]] + queue.taken().items == queue.items,
        queue.wf() <==> queue.items.len() == 0 || queue.wakers.len() == 0,
{
    if queue.items.len() > 0 {
        assert(seq![queue.items[0]] + queue.taken().items =~= queue.items);
    }
}

/// A task is given an item whenever there is one: the items left are the
/// arrivals less the requests that found one.
pub proof fn every_request_is_served_while_items_last<T, W>(events: Seq<Event<T, W>>)
    ensures
        History::of(events).queue.items.len() == waiting_items(events),
        History::of(events).accepted.len() + waiting_items(events) == arrivals(events).len(),
    decreases events.len(),
{
    if events.len() > 0 {
        every_request_is_served_while_items_last(events.drop_last());
    }
    items_are_accepted_in_order(events);
}

/// Every task that found no item is woken once, in the order in which they came
/// and however many they are: at any time the wakers that were handed out,
/// followed by those in the queue, are the wakers of all requests that came when
/// no item was left.
pub proof fn every_unserved_task_is_woken_once<T, W>(events: Seq<Event<T, W>>)
    ensures
        History::of(events).woken + History::of(events).queue.wakers == unserved(events),
    decreases events.len(),
{
    if events.len() > 0 {
        let before = History::of(events.drop_last());
        every_unserved_task_is_woken_once(events.drop_last());
        every_request_is_served_while_items_last(events.drop_last());
        match events.last() {
            Event::Arrive(item) => {
                assert(before.woken + before.queue.wakers + Seq::<W>::empty() =~= before.woken
                    + before.queue.wakers);
            },
            Event::Poll(waker) => {
                assert(before.woken + before.queue.wakers.push(waker) =~= (before.woken
                    + before.queue.wakers).push(waker));
            },
        }
    } else {
        assert(History::<T, W>::new().woken + History::<T, W>::new().queue.wakers =~= Seq::empty());
    }
}

/// Items are accepted in the order in which they arrive, each of them once: at
/// any time the accepted items, followed by those that wait, are the arrivals.
pub proof fn items_are_accepted_in_order<T, W>(events: Seq<Event<T, W>>)
    ensures
        History::of(events).accepted + History::of(events).queue.items == arrivals(events),
    decreases events.len(),
{
    if events.len() > 0 {
        let before = History::of(events.drop_last());
        items_are_accepted_in_order(events.drop_last());
        match events.last() {
            Event::Arrive(item) => {
                assert(before.accepted + before.queue.items.push(item) =~= (before.accepted
                    + before.queue.items).push(item));
            },
            Event::Poll(_) => {
                if before.queue.items.len() > 0 {
                    assert(before.accepted.push(before.queue.items[0]) + before.queue.items.skip(1)
                        =~= before.accepted + before.queue.items);
                }
            },
        }
    } else {
        assert(History::<T, W>::new().accepted + History::<T, W>::new().queue.items =~= Seq::empty());
    }
}

/// Every waker that was kept is handed out once, in the order in which they
/// were kept: at any time the wakers that were handed out, followed by those
/// that are still kept, are the wakers that were kept.
pub proof fn kept_wakers_are_woken_once<T, W>(events: Seq<Event<T, W>>)
    ensures
        History::of(events).woken + History::of(events).queue.wakers == History::of(events).kept,
    decreases events.len(),
{
    if events.len() > 0 {
        let before = History::of(events.drop_last());
        kept_wakers_are_woken_once(events.drop_last());
        match events.last() {
            Event::Arrive(item) => {
                assert(before.woken + before.queue.wakers + Seq::<W>::empty() =~= before.woken
                    + before.queue.wakers);
            },
            Event::Poll(waker) => {
                assert(before.woken + before.queue.wakers.push(waker) =~= (before.woken
                    + before.queue.wakers).push(waker));
            },
        }
    } else {
        assert(History::<T, W>::new().woken + History::<T, W>::new().queue.wakers =~= Seq::empty());
    }
}

/// No task is kept waiting while there is an item to be taken.
pub proof fn nobody_waits_for_a_waiting_item<T, W>(events: Seq<Event<T, W>>)
    ensures
        History::of(events).queue.wf(),
    decreases events.len(),
{
    if events.len() > 0 {
        nobody_waits_for_a_waiting_item(events.drop_last());
    }
}

/// No wakeup is lost: the next arrival wakes every task that was ever kept
/// waiting, and is there to be taken when they ask again.
pub proof fn arrival_wakes_every_waiting_task<T, W>(events: Seq<Event<T, W>>, item: T)
    ensures
        ({
            let before = History::of(events);
            let after = History::of(events.push(Event::Arrive(item)));
            &&& after.woken == before.kept
            &&& after.woken == unserved(events)
            &&& after.queue.wakers.len() == 0
            &&& after.queue.items == before.queue.items.push(item)
        }),
{
    kept_wakers_are_woken_once(events);
    every_unserved_task_is_woken_once(events);
    assert(events.push(Event::Arrive(item)).drop_last() =~= events);
}

} // verus!
