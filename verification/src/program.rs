use vstd::prelude::*;

use crate::channel::channel_recv;
use crate::channel::channel_send;
use crate::channel::channel_try_recv;
use crate::channel::channel_unbounded;
use crate::command::Command;
use crate::command::actions_of;
use crate::config::Config;
use crate::mailbox::Mailbox;
use crate::terminal::io_failure;
use crate::terminal::poll_input;
use crate::terminal::read_input;
use crate::worker_thread::WorkerThread;

verus! {

/// The one event type the runtime loop multiplexes: a request to stop
/// the loop, an injected application message, or a decoded terminal
/// input event.
pub enum RuntimeEvent<M> {
    Exit,
    User(M),
    Term(crossterm::event::Event),
}

/// Dispatch one command: a `Terminate` command enqueues a single exit
/// event and delivers nothing else; any other command's actions are
/// each run in order, on this thread, and every resulting message is
/// enqueued as a user event. A send can only fail when the loop's own
/// channel is gone, which means the runtime was torn down incorrectly:
/// that is fatal to the run.
fn run_command<M: Send + 'static>(
    tx: &crossbeam_channel::Sender<RuntimeEvent<M>>,
    command: Command<M>,
) -> (r: Result<(), std::io::Error>)
    ensures
        !(command is Terminate) && actions_of(command).len() == 0 ==> r is Ok,
{
    match command {
        Command::Terminate => {
            if channel_send(tx, RuntimeEvent::Exit) {
                Ok(())
            } else {
                Err(io_failure("event channel disconnected"))
            }
        },
        other => {
            let mut actions = other.actions();
            while actions.len() > 0
                invariant
                    actions@.len() <= actions_of(command).len(),
                decreases actions@.len(),
            {
                let action = actions.remove(0);
                let message = action.run();
                if !channel_send(tx, RuntimeEvent::User(message)) {
                    return Err(io_failure("event channel disconnected"));
                }
            }
            Ok(())
        },
    }
}

/// The contract between an application and the runtime: a state value,
/// hooks that map initialization, terminal input and messages to
/// commands, and a rendering function that produces the current frame.
/// Every hook runs on the runtime thread, one call at a time, so the
/// application state needs no synchronization of its own; hooks must
/// not block, since that stalls all event processing.
pub trait Program: Sized {
    type Message: Send + 'static;

    /// Called once, before the first render; the mailbox lets the
    /// application wire up external message producers. The resulting
    /// command is dispatched at once, though a `Terminate` from here is
    /// queued, not acted on synchronously, so one render still happens.
    fn init(&mut self, mailbox: Mailbox<Self::Message>) -> Command<Self::Message> {
        let _ = mailbox;
        Command::none()
    }

    /// Consumes the application after the loop has stopped.
    fn exit(self) {
    }

    /// Called for every decoded terminal input event.
    fn on_event(&mut self, event: crossterm::event::Event) -> Command<Self::Message> {
        let _ = event;
        Command::none()
    }

    /// Called for every injected message.
    fn update(&mut self, message: Self::Message) -> Command<Self::Message> {
        let _ = message;
        Command::none()
    }

    /// The current frame.
    fn view(&self) -> String;

    /// Run the program to completion: start the input listener,
    /// initialize the renderer, dispatch the initial command, then, on
    /// every iteration, render the current view and consume exactly one
    /// event, until an exit event arrives. Shutdown closes the listener
    /// and the renderer, blocking on both, and hands the application to
    /// `exit`; a failure of the terminal, of the flush worker, or — when
    /// rendering to the real terminal — of the input listener is
    /// returned after best-effort cleanup, and a worker that ended
    /// abnormally is reported in either mode. The configured rendering
    /// mode is never changed by a run.
    fn run(self, config: &mut Config) -> (r: Result<(), std::io::Error>)
        ensures
            final(config).renderer.is_buffered() == old(config).renderer.is_buffered(),
            old(config).renderer.is_buffered() && r is Ok ==> exists|s: Self, frame: String|
                call_ensures(Self::view, (&s,), frame)
                    && frame@ == final(config).renderer.buffered_contents(),
    {
        let mut this = self;
        let ghost mut seen_state = this;
        let ghost mut seen_frame: String = vstd::pervasive::arbitrary();
        let ghost mut rendered: bool = false;
        let (tx, rx) = channel_unbounded::<RuntimeEvent<Self::Message>>();

        // spin up the key/mouse event listener; a polling or decoding
        // failure stops it and is handed back through its handle
        let poll_span = core::time::Duration::from_millis(100);
        let listener = {
            let tx = tx.clone();
            WorkerThread::new(
                move |done: crossbeam_channel::Receiver<()>| -> Result<(), std::io::Error>
                    {
                        // The poll budget bounds the loop so that it
                        // provably terminates; at one poll per timeout
                        // it is out of reach of any real run.
                        let mut polls_left: u64 = u64::MAX;
                        while polls_left > 0
                            decreases polls_left,
                        {
                            polls_left = polls_left - 1;
                            match poll_input(poll_span) {
                                Ok(true) => match read_input() {
                                    Ok(event) => {
                                        if !channel_send(&tx, RuntimeEvent::Term(event)) {
                                            return Ok(());
                                        }
                                    },
                                    Err(e) => {
                                        return Err(e);
                                    },
                                },
                                Ok(false) => {},
                                Err(e) => {
                                    return Err(e);
                                },
                            }
                            if channel_try_recv(&done).is_some() {
                                return Ok(());
                            }
                        }
                        Ok(())
                    },
            )
        };

        // initialize the renderer
        match config.renderer.init() {
            Ok(()) => {},
            Err(e) => {
                let _ = listener.close();
                let _ = config.renderer.close();
                return Err(e);
            },
        }

        // if an initial command is provided, dispatch it
        let mailbox = Mailbox::new(&tx);
        let first = this.init(mailbox);
        match run_command(&tx, first) {
            Ok(()) => {},
            Err(e) => {
                let _ = listener.close();
                let _ = config.renderer.close();
                return Err(e);
            },
        }

        let mut outcome: Result<(), std::io::Error> = Ok(());
        // The event budget bounds the loop so that it provably
        // terminates; at one event per iteration it is out of reach of
        // any real run.
        let mut events_left: u64 = u64::MAX;
        while events_left > 0
            invariant
                config.renderer.is_buffered() == old(config).renderer.is_buffered(),
                events_left < u64::MAX ==> rendered,
                rendered && config.renderer.is_buffered() ==> call_ensures(
                    Self::view,
                    (&seen_state,),
                    seen_frame,
                ) && seen_frame@ == config.renderer.buffered_contents(),
            ensures
                rendered,
                config.renderer.is_buffered() == old(config).renderer.is_buffered(),
                config.renderer.is_buffered() ==> call_ensures(Self::view, (&seen_state,), seen_frame)
                    && seen_frame@ == config.renderer.buffered_contents(),
            decreases events_left,
        {
            events_left = events_left - 1;

            // update the view
            let frame = this.view();
            proof {
                seen_state = this;
                seen_frame = frame;
                rendered = true;
            }
            config.renderer.render(frame);

            // handle exactly one event
            match channel_recv(&rx) {
                None => {
                    outcome = Err(io_failure("event channel disconnected"));
                    break ;
                },
                Some(RuntimeEvent::Exit) => {
                    break ;
                },
                Some(RuntimeEvent::Term(event)) => {
                    let command = this.on_event(event);
                    match run_command(&tx, command) {
                        Ok(()) => {},
                        Err(e) => {
                            outcome = Err(e);
                            break ;
                        },
                    }
                },
                Some(RuntimeEvent::User(message)) => {
                    let command = this.update(message);
                    match run_command(&tx, command) {
                        Ok(()) => {},
                        Err(e) => {
                            outcome = Err(e);
                            break ;
                        },
                    }
                },
            }
        }

        // clean up, whatever the loop's outcome
        let listener_result = listener.close();
        let close_result = config.renderer.close();
        this.exit();
        match outcome {
            Ok(()) => {},
            Err(e) => {
                return Err(e);
            },
        }
        match listener_result {
            Ok(Ok(())) => {},
            Ok(Err(e)) => {
                // an input backend that cannot be polled fails the run
                // only where there is a terminal to read: a buffered run
                // is headless on purpose and gets no input anyway
                if !config.renderer.buffered_mode() {
                    return Err(e);
                }
            },
            Err(message) => {
                return Err(io_failure(message));
            },
        }
        proof {
            if config.renderer.is_buffered() {
                assert(call_ensures(Self::view, (&seen_state,), seen_frame) && seen_frame@
                    == config.renderer.buffered_contents());
            }
        }
        close_result
    }
}

} // verus!
