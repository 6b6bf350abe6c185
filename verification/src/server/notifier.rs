//! Batching of notifications.
//!
//! Notifications are collected into a pending batch. The batch leaves when
//! it is full, or when it is not empty and the batch delay has passed since
//! the last batch left. The notifier decides; the task that owns the queues
//! and the timer hands it each notification and each tick with the time on
//! its clock, and sends the batches that come back.

use crate::server::types::{Notification, NotificationBatch};
use crate::time::Duration;
use vstd::prelude::*;

verus! {

/// What happens to a notifier.
pub enum NotifierEvent {
    /// A notification arrives at the given time.
    Enqueue(Notification, Duration),
    /// The timer ticks at the given time.
    Tick(Duration),
}

/// The mathematical value of a [`Notifier`].
pub struct NotifierView {
    pub batch_delay: Duration,
    pub batch_size: usize,
    pub pending: Seq<Notification>,
    pub last_flush: Duration,
}

impl NotifierView {
    /// There is room in the pending batch: it leaves as soon as it is full.
    pub open spec fn wf(self) -> bool {
        self.batch_size >= 1 && self.pending.len() < self.batch_size
    }

    /// Whether the batch delay has passed at `now` since the last batch left.
    pub open spec fn delay_passed(self, now: Duration) -> bool {
        now@ >= self.last_flush@ && now@ - self.last_flush@ >= self.batch_delay@
    }

    /// The notifier after a flush at `now`.
    pub open spec fn flushed(self, now: Duration) -> NotifierView {
        NotifierView { pending: Seq::empty(), last_flush: now, ..self }
    }

    /// The notifier after an event, and the batch that leaves, if one does.
    pub open spec fn step(self, event: NotifierEvent) -> (NotifierView, Option<Seq<Notification>>) {
        match event {
            NotifierEvent::Enqueue(n, now) => {
                let all = self.pending.push(n);
                if all.len() >= self.batch_size {
                    (self.flushed(now), Some(all))
                } else {
                    (NotifierView { pending: all, ..self }, None)
                }
            },
            NotifierEvent::Tick(now) => {
                if self.pending.len() > 0 && self.delay_passed(now) {
                    (self.flushed(now), Some(self.pending))
                } else {
                    (self, None)
                }
            },
        }
    }

    /// The notifier after a sequence of events.
    pub open spec fn after(self, events: Seq<NotifierEvent>) -> NotifierView
        decreases events.len(),
    {
        if events.len() == 0 {
            self
        } else {
            self.after(events.drop_last()).step(events.last()).0
        }
    }

    /// The batches that leave during a sequence of events, in order.
    pub open spec fn batches(self, events: Seq<NotifierEvent>) -> Seq<Seq<Notification>>
        decreases events.len(),
    {
        if events.len() == 0 {
            Seq::empty()
        } else {
            let before = self.batches(events.drop_last());
            match self.after(events.drop_last()).step(events.last()).1 {
                Some(batch) => before.push(batch),
                None => before,
            }
        }
    }
}

/// The notifications that arrive during a sequence of events, in order.
pub open spec fn enqueued(events: Seq<NotifierEvent>) -> Seq<Notification>
    decreases events.len(),
{
    if events.len() == 0 {
        Seq::empty()
    } else {
        match events.last() {
            NotifierEvent::Enqueue(n, _) => enqueued(events.drop_last()).push(n),
            NotifierEvent::Tick(_) => enqueued(events.drop_last()),
        }
    }
}

/// All batches laid end to end.
pub open spec fn joined(batches: Seq<Seq<Notification>>) -> Seq<Notification>
    decreases batches.len(),
{
    if batches.len() == 0 {
        Seq::empty()
    } else {
        joined(batches.drop_last()) + batches.last()
    }
}

/// Collects notifications into batches.
pub struct Notifier {
    batch_delay: Duration,
    batch_size: usize,
    pending: Vec<Notification>,
    last_flush: Duration,
}

impl View for Notifier {
    type V = NotifierView;

    closed spec fn view(&self) -> NotifierView {
        NotifierView {
            batch_delay: self.batch_delay,
            batch_size: self.batch_size,
            pending: self.pending@,
            last_flush: self.last_flush,
        }
    }
}

impl Notifier {
    /// A notifier with nothing pending, whose clock starts at `now`.
    pub fn new(batch_delay: Duration, batch_size: usize, now: Duration) -> (n: Self)
        ensures
            n@ == (NotifierView {
                batch_delay,
                batch_size,
                pending: Seq::<Notification>::empty(),
                last_flush: now,
            }),
    {
        Notifier { batch_delay, batch_size, pending: Vec::new(), last_flush: now }
    }

    /// The number of notifications that wait for their batch.
    pub fn pending_len(&self) -> (n: usize)
        ensures
            n == self@.pending.len(),
    {
        self.pending.len()
    }

    /// Hands out the pending notifications as a batch, if there are any,
    /// and starts a new batch. An empty batch never leaves. A batch that
    /// has been handed out is gone from the notifier whether or not it can
    /// be sent on: where sending fails, the receiver sees a gap.
    pub fn send_batch(&mut self, now: Duration) -> (batch: Option<NotificationBatch>)
        ensures
            old(self)@.pending.len() == 0 ==> batch is None && final(self)@ == old(self)@,
            old(self)@.pending.len() > 0 ==> batch is Some && batch->Some_0.notifications@ == old(
                self,
            )@.pending && final(self)@ == old(self)@.flushed(now),
    {
        if self.pending.len() == 0 {
            return None;
        }
        let mut notifications: Vec<Notification> = Vec::new();
        std::mem::swap(&mut self.pending, &mut notifications);
        self.last_flush = now;
        Some(NotificationBatch { notifications })
    }

    /// A notification arrives. It joins the pending batch, and if that
    /// makes the batch full, the batch leaves at once.
    pub fn enqueue(&mut self, notification: Notification, now: Duration) -> (batch: Option<
        NotificationBatch,
    >)
        ensures
            final(self)@ == old(self)@.step(NotifierEvent::Enqueue(notification, now)).0,
            match old(self)@.step(NotifierEvent::Enqueue(notification, now)).1 {
                Some(b) => batch is Some && batch->Some_0.notifications@ == b,
                None => batch is None,
            },
            old(self)@.wf() ==> final(self)@.wf(),
            old(self)@.wf() && batch is Some ==> 1 <= batch->Some_0.notifications@.len() <= old(
                self,
            )@.batch_size,
    {
        self.pending.push(notification);
        if self.pending.len() >= self.batch_size {
            self.send_batch(now)
        } else {
            None
        }
    }

    /// The timer ticks. The pending batch leaves if it is not empty and the
    /// batch delay has passed since the last batch left.
    pub fn tick(&mut self, now: Duration) -> (batch: Option<NotificationBatch>)
        ensures
            final(self)@ == old(self)@.step(NotifierEvent::Tick(now)).0,
            match old(self)@.step(NotifierEvent::Tick(now)).1 {
                Some(b) => batch is Some && batch->Some_0.notifications@ == b,
                None => batch is None,
            },
            old(self)@.wf() ==> final(self)@.wf(),
            old(self)@.wf() && batch is Some ==> 1 <= batch->Some_0.notifications@.len() <= old(
                self,
            )@.batch_size,
    {
        let elapsed: Duration = now.saturating_sub(&self.last_flush);
        if self.pending.len() > 0 && now.at_least(&self.last_flush) && elapsed.at_least(
            &self.batch_delay,
        ) {
            self.send_batch(now)
        } else {
            None
        }
    }
}

/// Every batch that leaves holds at least one notification and at most
/// `batch_size`, and room is left in the pending batch after every event.
pub proof fn lemma_batches_bounded(start: NotifierView, events: Seq<NotifierEvent>)
    requires
        start.wf(),
    ensures
        start.after(events).wf(),
        start.after(events).batch_size == start.batch_size,
        forall|i: int|
            0 <= i < start.batches(events).len() ==> 1 <= (#[trigger] start.batches(
                events,
            )[i]).len() <= start.batch_size,
    decreases events.len(),
{
    if events.len() > 0 {
        let init = events.drop_last();
        lemma_batches_bounded(start, init);
        let before = start.after(init);
        let earlier = start.batches(init);
        let all = start.batches(events);
        assert forall|i: int| 0 <= i < all.len() implies 1 <= (#[trigger] all[i]).len()
            <= start.batch_size by {
            if i < earlier.len() {
                assert(all[i] == earlier[i]);
            } else {
                assert(before.step(events.last()).1 == Some(all[i]));
            }
        }
    }
}

/// Nothing is lost, doubled or reordered: the batches that have left, laid
/// end to end, followed by what is still pending, are what was pending at
/// the start followed by the notifications in the order of their arrival.
pub proof fn lemma_order_preserved(start: NotifierView, events: Seq<NotifierEvent>)
    ensures
        joined(start.batches(events)) + start.after(events).pending == start.pending + enqueued(
            events,
        ),
    decreases events.len(),
{
    if events.len() == 0 {
        assert(joined(start.batches(events)) + start.after(events).pending =~= start.pending
            + enqueued(events));
    } else {
        let init = events.drop_last();
        lemma_order_preserved(start, init);
        let before = start.after(init);
        let earlier = start.batches(init);
        let so_far = joined(earlier) + before.pending;
        assert(so_far == start.pending + enqueued(init));
        let arrived: Seq<Notification> = match events.last() {
            NotifierEvent::Enqueue(n, _) => seq![n],
            NotifierEvent::Tick(_) => Seq::empty(),
        };
        assert(enqueued(events) =~= enqueued(init) + arrived);
        match before.step(events.last()).1 {
            Some(batch) => {
                assert(start.batches(events) == earlier.push(batch));
                assert(start.batches(events).drop_last() =~= earlier);
                assert(start.batches(events).last() == batch);
                assert(joined(start.batches(events)) == joined(earlier) + batch);
                assert(batch =~= before.pending + arrived);
                assert(start.after(events).pending =~= Seq::<Notification>::empty());
                assert(joined(start.batches(events)) + start.after(events).pending =~= so_far
                    + arrived);
            },
            None => {
                assert(start.batches(events) == earlier);
                assert(start.after(events).pending =~= before.pending + arrived);
                assert(joined(start.batches(events)) + start.after(events).pending =~= so_far
                    + arrived);
            },
        }
        assert(so_far + arrived =~= start.pending + enqueued(events));
    }
}

} // verus!
