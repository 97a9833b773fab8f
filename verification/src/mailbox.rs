use vstd::prelude::*;

use crate::channel::channel_send;
use crate::program::RuntimeEvent;

verus! {

/// A cloneable handle that lets external producers inject messages into
/// a running program, typically outside the normal application
/// lifecycle, e.g. on a recurring basis or in response to external
/// stimuli.
///
/// The handle holds one sending side of the program's event channel.
/// The channel counts as closed once the run loop has dropped the
/// receiving side, however many handles are still held, so a mailbox
/// never keeps a stopped program's channel alive, and every send after
/// the program has exited fails with the closed error.
#[derive(Clone)]
#[verifier::reject_recursive_types(M)]
pub struct Mailbox<M> {
    sender: crossbeam_channel::Sender<RuntimeEvent<M>>,
}

impl<M> Mailbox<M> {
    pub(crate) fn new(sender: &crossbeam_channel::Sender<RuntimeEvent<M>>) -> Mailbox<M> {
        Mailbox { sender: sender.clone() }
    }

    /// Deliver a message to the program as an external event. If the
    /// program associated with the mailbox has exited, this returns the
    /// closed error; it never blocks (the channel is unbounded) and
    /// never panics.
    pub fn send(&self, message: M) -> (r: Result<(), &'static str>)
        ensures
            r matches Err(e) ==> e@ == "mailbox has been closed"@,
    {
        if channel_send(&self.sender, RuntimeEvent::User(message)) {
            Ok(())
        } else {
            Err("mailbox has been closed")
        }
    }
}

} // verus!
