use vstd::prelude::*;

use crate::channel::channel_recv;
use crate::channel::channel_send;
use crate::channel::channel_unbounded;

verus! {

#[verifier::external_type_specification]
#[verifier::external_body]
pub struct ExThreadPool(threadpool::ThreadPool);

/// Relies on `threadpool::ThreadPool::new`: a pool of one thread; one
/// is more than zero workers, so the call does not panic.
#[verifier::external_body]
fn pool_of_one() -> threadpool::ThreadPool {
    threadpool::ThreadPool::new(1)
}

/// Relies on `threadpool::ThreadPool::execute`: runs the job, once, on
/// a thread of the pool.
#[verifier::external_body]
fn pool_execute<F: FnOnce() + Send + 'static>(pool: &threadpool::ThreadPool, job: F)
    requires
        call_requires(job, ()),
{
    pool.execute(job)
}

/// A unit of work running on its own thread of control, together with a
/// private cancellation channel. The work receives the channel and is
/// expected to stop soon after a signal arrives on it or it is closed:
/// cancellation is strictly cooperative, never preemptive. Nothing
/// stops the work automatically; its owner must call `close`.
#[verifier::reject_recursive_types(Ret)]
pub struct WorkerThread<Ret> {
    pool: threadpool::ThreadPool,
    done: crossbeam_channel::Sender<()>,
    finished: crossbeam_channel::Receiver<Ret>,
}

impl<Ret: Send + 'static> WorkerThread<Ret> {
    /// Spawn the work on a thread of its own. The work's last act is to
    /// hand its result over the finish channel, so waiting on that
    /// channel waits for the work itself.
    pub fn new<F: FnOnce(crossbeam_channel::Receiver<()>) -> Ret + Send + 'static>(
        fun: F,
    ) -> (worker: Self)
        requires
            forall|done: crossbeam_channel::Receiver<()>| #[trigger] call_requires(fun, (done,)),
    {
        let (done_tx, done_rx) = channel_unbounded::<()>();
        let (finish_tx, finish_rx) = channel_unbounded::<Ret>();
        let pool = pool_of_one();
        pool_execute(
            &pool,
            move ||
                {
                    let ret = fun(done_rx);
                    let _ = channel_send(&finish_tx, ret);
                },
        );
        WorkerThread { pool, done: done_tx, finished: finish_rx }
    }

    /// Notify the running work that it should stop, then block until it
    /// has returned: the blocking receive on the finish channel can only
    /// be answered by the work's own final send. An error means the work
    /// ended abnormally (its thread unwound without finishing), instead
    /// of being silently ignored.
    pub fn close(self) -> (r: Result<Ret, &'static str>)
        ensures
            r matches Err(message) ==> message@ == "worker thread failed"@,
    {
        let _ = channel_send(&self.done, ());
        match channel_recv(&self.finished) {
            Some(ret) => Ok(ret),
            None => Err("worker thread failed"),
        }
    }
}

} // verus!
