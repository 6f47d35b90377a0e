//! The queue between the pool and one worker: a channel of the standard
//! library, whose sending end the pool keeps and whose receiving end the
//! worker drains.

use vstd::prelude::*;

verus! {

/// `std::sync::mpsc::Sender`, the sending end of a queue, taken as opaque.
#[verifier::external_type_specification]
#[verifier::external_body]
#[verifier::reject_recursive_types(T)]
pub struct ExSender<T>(std::sync::mpsc::Sender<T>);

/// `std::sync::mpsc::Receiver`, the receiving end of a queue, taken as opaque.
#[verifier::external_type_specification]
#[verifier::external_body]
#[verifier::reject_recursive_types(T)]
pub struct ExReceiver<T>(std::sync::mpsc::Receiver<T>);

/// `std::sync::mpsc::Sender::send`: puts the value on the queue without
/// blocking, and reports whether the queue took it. It does not take it once
/// the receiving end is gone, which only the other side decides: nothing is
/// claimed of the answer.
#[verifier::external_body]
pub(crate) fn send_on<T>(sender: &std::sync::mpsc::Sender<T>, value: T) -> (sent: bool) {
    sender.send(value).is_ok()
}

/// `std::sync::mpsc::channel`: a new unbounded queue, as its two ends. The
/// ends are opaque, so nothing is claimed of them.
#[verifier::external_body]
pub(crate) fn open_queue<T>() -> (ends: (
    std::sync::mpsc::Sender<T>,
    std::sync::mpsc::Receiver<T>,
)) {
    std::sync::mpsc::channel::<T>()
}

} // verus!
