use vstd::prelude::*;

use crate::channel::tick_every;
use crate::channel::wait_tick_or_stop;
use crate::mailbox::Mailbox;
use crate::worker_thread::WorkerThread;

verus! {

/// A simple timer that sends a given message on a regular interval,
/// built from one background worker and one mailbox handle.
#[verifier::reject_recursive_types(M)]
pub struct Timer<M> {
    worker: Option<WorkerThread<()>>,
    message: M,
    interval: core::time::Duration,
}

impl<M: Clone + Send + 'static> Timer<M> {
    /// Whether the timer currently has a live worker.
    pub closed spec fn is_running(self) -> bool {
        self.worker is Some
    }

    /// The template message, one clone of which is sent per tick.
    pub closed spec fn template(self) -> M {
        self.message
    }

    /// The tick interval.
    pub closed spec fn interval(self) -> core::time::Duration {
        self.interval
    }

    /// Create a timer that sends the given message at the given
    /// interval. The first message is sent one full interval after the
    /// timer starts, not immediately.
    pub fn new(interval: core::time::Duration, message: M) -> (timer: Self)
        ensures
            !timer.is_running(),
            timer.template() == message,
            timer.interval() == interval,
    {
        Timer { worker: None, message, interval }
    }

    /// Start the timer. Its worker waits one interval, then clones the
    /// template message and sends it through the mailbox, over and over;
    /// it stops itself once the mailbox reports the program gone, or a
    /// stop signal arrives. Starting an already-started timer does
    /// nothing at all, so two starts in a row leave exactly one live
    /// worker.
    ///
    /// Make sure to call `stop` when your program exits.
    pub fn start(&mut self, mailbox: Mailbox<M>)
        ensures
            final(self).is_running(),
            old(self).is_running() ==> *final(self) == *old(self),
            final(self).template() == old(self).template(),
            final(self).interval() == old(self).interval(),
    {
        if self.worker.is_some() {
            return ;
        }
        let interval = self.interval;
        let message = self.message.clone();
        let worker = WorkerThread::new(
            move |done: crossbeam_channel::Receiver<()>|
                {
                    let ticker = tick_every(interval);
                    // The tick budget bounds the loop so that it provably
                    // terminates; at one tick per interval it is out of
                    // reach of any real run.
                    let mut ticks_left: u64 = u64::MAX;
                    while ticks_left > 0
                        decreases ticks_left,
                    {
                        ticks_left = ticks_left - 1;
                        if wait_tick_or_stop(&ticker, &done) {
                            let tick = message.clone();
                            if mailbox.send(tick).is_err() {
                                return ;
                            }
                        } else {
                            return ;
                        }
                    }
                },
        );
        self.worker = Some(worker);
    }

    /// Stop the timer and block until its worker has returned. Stopping
    /// a timer that is not running does nothing at all.
    ///
    /// This should usually be called from `exit` in your program.
    pub fn stop(&mut self)
        ensures
            !final(self).is_running(),
            !old(self).is_running() ==> *final(self) == *old(self),
            final(self).template() == old(self).template(),
            final(self).interval() == old(self).interval(),
    {
        match self.worker.take() {
            Some(worker) => {
                let _ = worker.close();
            },
            None => {},
        }
    }
}

} // verus!
