//! Trusted boundary to crossbeam's unbounded channel, the asynchronous
//! delivery queue that carries incoming replies from the delivery thread to
//! the consumer blocked in `get`/`get_all`.

use vstd::prelude::*;

verus! {

/// A reply as it travels on the delivery channel: the sending PE's world id
/// and the payload bytes, if any.
pub type Reply = (usize, Option<Vec<u8>>);

#[verifier::external_type_specification]
#[verifier::external_body]
#[verifier::reject_recursive_types(T)]
pub struct ExSender<T>(crossbeam::channel::Sender<T>);

#[verifier::external_type_specification]
#[verifier::external_body]
#[verifier::reject_recursive_types(T)]
pub struct ExReceiver<T>(crossbeam::channel::Receiver<T>);

/// Relies on crossbeam::channel::Sender::clone: a new sending handle to the
/// same channel.  Nothing further is promised of it.
pub assume_specification<T>[ <crossbeam::channel::Sender<T> as Clone>::clone ](
    v: &crossbeam::channel::Sender<T>,
) -> crossbeam::channel::Sender<T>;

/// Relies on crossbeam::channel::unbounded: an unbounded multi-producer,
/// multi-consumer queue whose two halves address the same queue.
#[verifier::external_body]
pub(crate) fn reply_channel() -> (crossbeam::channel::Sender<Reply>, crossbeam::channel::Receiver<Reply>) {
    crossbeam::channel::unbounded()
}

/// Relies on crossbeam::channel::Sender::send: enqueues the message, unless
/// every receiving half has been discarded, in which case the message is
/// dropped — a reply pushed to an abandoned request is simply never read.
#[verifier::external_body]
pub(crate) fn send_reply(tx: &crossbeam::channel::Sender<Reply>, origin_pe: usize, payload: Option<Vec<u8>>) {
    let _ = tx.send((origin_pe, payload));
}

/// Relies on crossbeam::channel::Receiver::recv: blocks until a message is
/// available and dequeues it.  The call returns no message at all only when
/// every sending half was destroyed without sending; that indicates a bug in
/// the registration/delivery machinery and is treated as a fatal internal
/// error (the process aborts), not as a reportable condition.
#[verifier::external_body]
pub(crate) fn recv_reply(rx: &crossbeam::channel::Receiver<Reply>) -> Reply {
    rx.recv().expect("result recv")
}

} // verus!
