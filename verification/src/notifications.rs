//! Toast notifications shown by the UI layer.

use vstd::prelude::*;

use crate::models::matrix::ToastNotificationRequest;
use crate::signals::{broadcast_event, Broadcaster, UIUpdateMessage};
use crate::update_queue::ToastQueue;

verus! {

/// Enqueues a toast notification and raises the refresh signal so the UI
/// loop wakes up and displays it. Toasts are shown in the order they were
/// enqueued. Whether the raise reached a subscriber is reported to the
/// caller instead of terminating anything.
pub fn enqueue_toast_notification(
    queue: &mut ToastQueue,
    broadcaster: &Broadcaster,
    notification: ToastNotificationRequest,
) -> (delivered: bool)
    ensures
        final(queue)@ == old(queue)@.push(notification),
{
    queue.push(notification);
    match broadcast_event(broadcaster, UIUpdateMessage::RefreshUI) {
        Ok(_) => true,
        Err(_) => false,
    }
}

/// Drains the pending toast notifications, in the order they were
/// enqueued, so the caller can emit each one to the UI.
pub fn process_toast_notifications(queue: &mut ToastQueue) -> (r: Vec<ToastNotificationRequest>)
    ensures
        final(queue)@.len() == 0,
        r@ == old(queue)@,
{
    let mut r: Vec<ToastNotificationRequest> = Vec::new();
    if queue.is_empty() {
        proof {
            assert(r@ =~= old(queue)@);
        }
        return r;
    }
    loop
        invariant
            r@ + queue@ == old(queue)@,
        ensures
            queue@.len() == 0,
            r@ + queue@ == old(queue)@,
        decreases queue@.len(),
    {
        match queue.pop() {
            Some(notification) => {
                r.push(notification);
                proof {
                    assert(r@ + queue@ =~= old(queue)@);
                }
            }
            None => {
                break ;
            }
        }
    }
    proof {
        assert(r@ =~= old(queue)@);
    }
    r
}

} // verus!
