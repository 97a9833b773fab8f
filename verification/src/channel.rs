use vstd::prelude::*;

verus! {

#[verifier::external_type_specification]
#[verifier::external_body]
#[verifier::reject_recursive_types(T)]
pub struct ExSender<T>(crossbeam_channel::Sender<T>);

#[verifier::external_type_specification]
#[verifier::external_body]
#[verifier::reject_recursive_types(T)]
pub struct ExReceiver<T>(crossbeam_channel::Receiver<T>);

/// Relies on `crossbeam_channel::Sender::clone`: a clone is one more
/// sending handle on the same channel.
pub assume_specification<T>[ <crossbeam_channel::Sender<T> as Clone>::clone ](
    tx: &crossbeam_channel::Sender<T>,
) -> crossbeam_channel::Sender<T>;

/// Relies on `core::time::Duration::from_millis`: the span of the given
/// number of milliseconds.
pub assume_specification[ core::time::Duration::from_millis ](millis: u64)
    -> core::time::Duration;

#[verifier::external_type_specification]
#[verifier::external_body]
pub struct ExInstant(std::time::Instant);

/// Relies on `crossbeam_channel::unbounded`: creates a channel of
/// unbounded capacity, so sends on it never block, and messages arrive
/// in the order they were sent.
#[verifier::external_body]
pub(crate) fn channel_unbounded<T>() -> (crossbeam_channel::Sender<T>, crossbeam_channel::Receiver<
    T,
>) {
    crossbeam_channel::unbounded()
}

/// Relies on `crossbeam_channel::Sender::send`: on an unbounded channel
/// a send never blocks; it fails exactly when every receiver of the
/// channel has been dropped, and delivers the message otherwise.
#[verifier::external_body]
pub(crate) fn channel_send<T>(tx: &crossbeam_channel::Sender<T>, message: T) -> (delivered: bool) {
    tx.send(message).is_ok()
}

/// Relies on `crossbeam_channel::Receiver::recv`: blocks until a
/// message arrives and hands it back, or hands back nothing once the
/// channel is empty and every sender has been dropped.
#[verifier::external_body]
pub(crate) fn channel_recv<T>(rx: &crossbeam_channel::Receiver<T>) -> (message: Option<T>) {
    rx.recv().ok()
}

/// Relies on `crossbeam_channel::Receiver::try_recv`: hands back a
/// pending message without ever blocking, or nothing when the channel
/// is currently empty or closed.
#[verifier::external_body]
pub(crate) fn channel_try_recv<T>(rx: &crossbeam_channel::Receiver<T>) -> (message: Option<T>) {
    rx.try_recv().ok()
}

/// Relies on `crossbeam_channel::tick`: a channel that delivers the
/// time, on a fixed schedule, every interval, the first delivery one
/// full interval from now; a late receiver finds at most one tick
/// waiting, so missed ticks never pile up. An interval so large that
/// its deadline cannot be represented yields a channel that never
/// delivers.
#[verifier::external_body]
pub(crate) fn tick_every(interval: core::time::Duration) -> crossbeam_channel::Receiver<
    std::time::Instant,
> {
    crossbeam_channel::tick(interval)
}

/// Relies on `crossbeam_channel::Select` over the tick channel and the
/// stop channel: blocks until one of the two is ready, receives from
/// it, and says whether it was a tick. A ready stop channel (a signal,
/// or all of its senders gone) ends the wait with false.
#[verifier::external_body]
pub(crate) fn wait_tick_or_stop(
    ticker: &crossbeam_channel::Receiver<std::time::Instant>,
    done: &crossbeam_channel::Receiver<()>,
) -> bool {
    let mut select = crossbeam_channel::Select::new();
    let tick_index = select.recv(ticker);
    select.recv(done);
    let oper = select.select();
    if oper.index() == tick_index {
        oper.recv(ticker).is_ok()
    } else {
        let _ = oper.recv(done);
        false
    }
}

} // verus!
