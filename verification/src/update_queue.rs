//! The update queues between the background reconcilers and the UI loop.
//!
//! Updates travel through unbounded FIFO queues: any number of producers
//! push, a single consumer drains. The queues themselves come from an
//! outside crate and are trusted only for the contracts written here; the
//! logic that fills and drains them is verified against those contracts.

use vstd::prelude::*;

use crate::models::matrix::ToastNotificationRequest;
use crate::rooms_list::RoomsListUpdate;

verus! {

#[verifier::external_type_specification]
#[verifier::external_body]
#[verifier::reject_recursive_types(T)]
/// An unbounded FIFO queue of an outside crate, used here as the transport
/// for update records.
pub struct ExSegQueue<T>(crossbeam_queue::SegQueue<T>);

/// The pending rooms-list updates, oldest first.
pub uninterp spec fn rooms_queue_contents(q: crossbeam_queue::SegQueue<RoomsListUpdate>) -> Seq<
    RoomsListUpdate,
>;

/// The pending toast notifications, oldest first.
pub uninterp spec fn toast_queue_contents(q: crossbeam_queue::SegQueue<ToastNotificationRequest>) -> Seq<
    ToastNotificationRequest,
>;

/// The queue of updates that should be displayed by the list of all rooms,
/// filled by the reconcilers and drained by the UI loop.
pub struct RoomsUpdateQueue {
    /// The underlying FIFO queue.
    pub queue: crossbeam_queue::SegQueue<RoomsListUpdate>,
}

impl View for RoomsUpdateQueue {
    type V = Seq<RoomsListUpdate>;

    /// The pending updates, oldest first.
    open spec fn view(&self) -> Seq<RoomsListUpdate> {
        rooms_queue_contents(self.queue)
    }
}

impl RoomsUpdateQueue {
    /// Relies on crossbeam_queue::SegQueue::new: creates an empty queue.
    #[verifier::external_body]
    pub fn new() -> (r: RoomsUpdateQueue)
        ensures
            rooms_queue_contents(r.queue) == Seq::<RoomsListUpdate>::empty(),
    {
        RoomsUpdateQueue { queue: crossbeam_queue::SegQueue::new() }
    }

    /// Relies on crossbeam_queue::SegQueue::push_mut: appends the value at
    /// the tail of the FIFO queue.
    #[verifier::external_body]
    pub fn push(&mut self, update: RoomsListUpdate)
        ensures
            rooms_queue_contents(final(self).queue) == rooms_queue_contents(
                old(self).queue,
            ).push(update),
    {
        self.queue.push_mut(update)
    }

    /// Relies on crossbeam_queue::SegQueue::pop_mut: takes the value at the
    /// head of the FIFO queue, or returns nothing when the queue is empty.
    #[verifier::external_body]
    pub fn pop(&mut self) -> (r: Option<RoomsListUpdate>)
        ensures
            old(self)@.len() == 0 ==> r is None && rooms_queue_contents(final(self).queue)
                == rooms_queue_contents(old(self).queue),
            old(self)@.len() > 0 ==> r == Some(old(self)@[0]) && rooms_queue_contents(
                final(self).queue,
            ) == rooms_queue_contents(old(self).queue).drop_first(),
    {
        self.queue.pop_mut()
    }
}

/// The queue of toast notifications waiting to be shown, filled by any
/// producer and drained by the UI loop.
pub struct ToastQueue {
    /// The underlying FIFO queue.
    pub queue: crossbeam_queue::SegQueue<ToastNotificationRequest>,
}

impl View for ToastQueue {
    type V = Seq<ToastNotificationRequest>;

    /// The pending toasts, oldest first.
    open spec fn view(&self) -> Seq<ToastNotificationRequest> {
        toast_queue_contents(self.queue)
    }
}

impl ToastQueue {
    /// Relies on crossbeam_queue::SegQueue::new: creates an empty queue.
    #[verifier::external_body]
    pub fn new() -> (r: ToastQueue)
        ensures
            toast_queue_contents(r.queue) == Seq::<ToastNotificationRequest>::empty(),
    {
        ToastQueue { queue: crossbeam_queue::SegQueue::new() }
    }

    /// Relies on crossbeam_queue::SegQueue::push_mut: appends the value at
    /// the tail of the FIFO queue.
    #[verifier::external_body]
    pub fn push(&mut self, toast: ToastNotificationRequest)
        ensures
            toast_queue_contents(final(self).queue) == toast_queue_contents(
                old(self).queue,
            ).push(toast),
    {
        self.queue.push_mut(toast)
    }

    /// Relies on crossbeam_queue::SegQueue::pop_mut: takes the value at the
    /// head of the FIFO queue, or returns nothing when the queue is empty.
    #[verifier::external_body]
    pub fn pop(&mut self) -> (r: Option<ToastNotificationRequest>)
        ensures
            old(self)@.len() == 0 ==> r is None && toast_queue_contents(final(self).queue)
                == toast_queue_contents(old(self).queue),
            old(self)@.len() > 0 ==> r == Some(old(self)@[0]) && toast_queue_contents(
                final(self).queue,
            ) == toast_queue_contents(old(self).queue).drop_first(),
    {
        self.queue.pop_mut()
    }

    /// Relies on crossbeam_queue::SegQueue::is_empty.
    #[verifier::external_body]
    pub fn is_empty(&self) -> (r: bool)
        ensures
            r == (toast_queue_contents(self.queue).len() == 0),
    {
        self.queue.is_empty()
    }
}

} // verus!
