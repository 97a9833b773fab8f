use vstd::prelude::*;

use std::sync::Arc;

use crate::channel::tick_every;
use crate::channel::wait_tick_or_stop;
use crate::diff::DrawOp;
use crate::diff::frame_ops;
use crate::diff::frame_ops_spec;
use crate::diff::lemma_frame_ops_nonempty;
use crate::terminal::disable_raw_mode;
use crate::terminal::enable_raw_mode;
use crate::terminal::flush_stdout;
use crate::terminal::hide_cursor;
use crate::terminal::io_failure;
use crate::terminal::queue_clear_line;
use crate::terminal::queue_cursor_up;
use crate::terminal::queue_text;
use crate::terminal::show_cursor;
use crate::worker_thread::WorkerThread;
use vstd::rwlock::RwLock;
use vstd::rwlock::RwLockPredicate;

verus! {

pub(crate) const DEFAULT_FRAMERATE: u64 = 60;

/// A write buffer is a light wrapper around a `String` that tracks
/// whether it has been written to, allowing its reader to skip work if
/// nothing changed since the previous read.
pub(crate) struct WriteBuffer {
    dirty: bool,
    inner: String,
}

impl WriteBuffer {
    /// The stored text.
    pub(crate) closed spec fn contents(self) -> Seq<char> {
        self.inner@
    }

    /// Whether the stored text was staged but not read back yet.
    pub(crate) closed spec fn is_dirty(self) -> bool {
        self.dirty
    }

    pub(crate) fn new() -> (buffer: Self)
        ensures
            buffer.contents() == Seq::<char>::empty(),
            !buffer.is_dirty(),
    {
        WriteBuffer { dirty: false, inner: String::new() }
    }

    /// A copy of the stored text.
    pub(crate) fn output(&self) -> (text: String)
        ensures
            text@ == self.contents(),
    {
        self.inner.clone()
    }

    /// Replace the stored text and mark it staged.
    pub(crate) fn write(&mut self, text: &str)
        ensures
            final(self).contents() == text@,
            final(self).is_dirty(),
    {
        self.inner = text.to_owned();
        self.dirty = true;
    }

    /// Hand the stored text out and clear the staged mark: says whether
    /// the text had been staged since the last take.
    pub(crate) fn take(&mut self) -> (r: (bool, String))
        ensures
            r.0 == old(self).is_dirty(),
            r.1@ == old(self).contents(),
            !final(self).is_dirty(),
            final(self).contents() == old(self).contents(),
    {
        let was_dirty = self.dirty;
        self.dirty = false;
        (was_dirty, self.inner.clone())
    }
}

/// The shared buffer's lock invariant: any contents are acceptable.
/// The lock guards the staging hand-off between the runtime thread and
/// the flush worker, not a data invariant, so every value of this type
/// accepts every buffer.
struct AnyContents;

impl RwLockPredicate<WriteBuffer> for AnyContents {
    open spec fn inv(self, buffer: WriteBuffer) -> bool {
        true
    }
}

/// Relies on `alloc::sync::Arc::clone`: one more handle to the same
/// shared buffer.
#[verifier::external_body]
fn share_buffer(buffer: &Arc<RwLock<WriteBuffer, AnyContents>>) -> (r: Arc<
    RwLock<WriteBuffer, AnyContents>,
>)
    ensures
        r == *buffer,
{
    Arc::clone(buffer)
}

/// Stage the frame into the shared buffer, under its write lock.
fn stage_shared(buffer: &Arc<RwLock<WriteBuffer, AnyContents>>, view: &str) {
    let (mut staged, handle) = buffer.acquire_write();
    staged.write(view);
    handle.release_write(staged);
}

/// Take the staged text out of the shared buffer, under its write lock,
/// in one atomic read-and-clear step: the text, and whether it was
/// freshly staged.
fn take_shared(buffer: &Arc<RwLock<WriteBuffer, AnyContents>>) -> (bool, String) {
    let (mut staged, handle) = buffer.acquire_write();
    let taken = staged.take();
    handle.release_write(staged);
    taken
}

/// A screen holds the shared staging buffer for terminal output and,
/// once initialized, the worker that flushes that buffer to the
/// terminal on a fixed cadence.
struct Screen {
    buffer: Arc<RwLock<WriteBuffer, AnyContents>>,
    worker: Option<WorkerThread<Result<(), std::io::Error>>>,
}

impl Screen {
    fn new() -> Screen {
        Screen {
            buffer: Arc::new(RwLock::new(WriteBuffer::new(), Ghost(AnyContents))),
            worker: None,
        }
    }
}

enum Output {
    Stdout(Screen),
    Buffered(WriteBuffer),
}

/// A renderer is responsible for displaying a program's view: on the
/// real terminal as a rate-limited minimal diff, or in an in-memory
/// buffer for tests.
pub struct Renderer {
    output: Output,
}

/// Queue every operation of the list against the terminal, in order:
/// clears, cursor moves, staged lines and line breaks.
fn apply_ops(ops: &Vec<DrawOp>, new_lines: &Vec<String>) -> (r: Result<(), std::io::Error>)
    requires
        forall|n: int|
            0 <= n < ops@.len() && ops@[n] is PutLine ==> (ops@[n]->PutLine_0 as int)
                < new_lines@.len(),
{
    let mut idx: usize = 0;
    while idx < ops.len()
        invariant
            idx <= ops@.len(),
            forall|n: int|
                0 <= n < ops@.len() && ops@[n] is PutLine ==> (ops@[n]->PutLine_0 as int)
                    < new_lines@.len(),
        decreases ops@.len() - idx,
    {
        let op = ops[idx];
        let step = match op {
            DrawOp::ClearLine => queue_clear_line(),
            DrawOp::CursorUp => queue_cursor_up(),
            DrawOp::PutLine(i) => queue_text(new_lines[i].as_str()),
            DrawOp::LineBreak => queue_text("\r\n"),
        };
        match step {
            Ok(()) => {},
            Err(e) => {
                return Err(e);
            },
        }
        idx += 1;
    }
    Ok(())
}

/// Write the staged frame to the terminal as a minimal diff against the
/// last written frame, then remember it as the last written frame. A
/// frame byte-identical to the last written one is skipped whole: no
/// operation is queued and nothing is flushed.
pub(crate) fn flush_frame(last_render: &mut Option<String>, view: &str) -> (r: Result<
    (),
    std::io::Error,
>)
    ensures
        (match *old(last_render) {
            Some(prev) => prev@ == view@,
            None => false,
        }) ==> r is Ok && *final(last_render) == *old(last_render),
        r is Ok ==> (match *final(last_render) {
            Some(now) => now@ == view@,
            None => false,
        }),
        r is Err ==> *final(last_render) == *old(last_render) || (match *final(last_render) {
            Some(now) => now@ == view@,
            None => false,
        }),
{
    let ghost last_view = crate::diff::view_of_last(*last_render);
    let (ops, new_lines) = frame_ops(last_render, view);
    if ops.len() == 0 {
        proof {
            if last_view != Some(view@) {
                lemma_frame_ops_nonempty(last_view, view@);
            }
            assert(last_view == Some(view@));
        }
        return Ok(());
    }
    match apply_ops(&ops, &new_lines) {
        Ok(()) => {},
        Err(e) => {
            return Err(e);
        },
    }
    *last_render = Some(view.to_owned());
    flush_stdout()
}

/// The worker that, on a fixed cadence, takes the staged frame out of
/// the shared buffer and, when it was freshly staged, flushes it to the
/// terminal; it stops at the first stop signal, handing any terminal
/// failure back to `Renderer::close`.
fn spawn_flush_worker(buffer: &Arc<RwLock<WriteBuffer, AnyContents>>) -> WorkerThread<
    Result<(), std::io::Error>,
> {
    let buffer = share_buffer(buffer);
    let frame_delay = core::time::Duration::from_millis(1000 / DEFAULT_FRAMERATE);
    WorkerThread::new(
        move |done: crossbeam_channel::Receiver<()>| -> Result<(), std::io::Error>
            {
                let mut last_render: Option<String> = None;
                let next_frame = tick_every(frame_delay);
                // The frame budget bounds the loop so that it provably
                // terminates; at one frame per tick it is out of reach
                // of any real run.
                let mut frames_left: u64 = u64::MAX;
                while frames_left > 0
                    decreases frames_left,
                {
                    frames_left = frames_left - 1;
                    if wait_tick_or_stop(&next_frame, &done) {
                        let (was_dirty, staged) = take_shared(&buffer);
                        if was_dirty {
                            match flush_frame(&mut last_render, staged.as_str()) {
                                Ok(()) => {},
                                Err(e) => {
                                    return Err(e);
                                },
                            }
                        }
                    } else {
                        return Ok(());
                    }
                }
                Ok(())
            },
    )
}

impl Renderer {
    /// Whether this renderer stores frames in memory instead of showing
    /// them on the terminal.
    pub closed spec fn is_buffered(self) -> bool {
        self.output is Buffered
    }

    /// The text the buffered variant stores.
    pub closed spec fn buffered_contents(self) -> Seq<char> {
        self.output->Buffered_0.contents()
    }

    /// Whether the terminal variant currently holds a live flush worker.
    pub closed spec fn flush_worker_live(self) -> bool {
        self.output is Stdout && self.output->Stdout_0.worker is Some
    }

    /// Whether this renderer is the buffered variant.
    pub(crate) fn buffered_mode(&self) -> (b: bool)
        ensures
            b == self.is_buffered(),
    {
        match &self.output {
            Output::Buffered(_) => true,
            Output::Stdout(_) => false,
        }
    }

    /// Render output to stdout (the default).
    pub fn stdout() -> (r: Self)
        ensures
            !r.is_buffered(),
    {
        Renderer { output: Output::Stdout(Screen::new()) }
    }

    /// Render output to a string buffer (don't display anything on
    /// screen). This should generally only be used for testing.
    pub fn buffered() -> (r: Self)
        ensures
            r.is_buffered(),
            r.buffered_contents() == Seq::<char>::empty(),
    {
        Renderer { output: Output::Buffered(WriteBuffer::new()) }
    }

    /// Retrieve a copy of the renderer's most recent output. Only the
    /// buffered variant has a deterministic current output distinct from
    /// the physical screen, so only it may be asked.
    ///
    /// This should generally only be used for testing.
    pub fn output(&self) -> (text: String)
        requires
            self.is_buffered(),
        ensures
            text@ == self.buffered_contents(),
    {
        match &self.output {
            Output::Buffered(buffer) => buffer.output(),
            Output::Stdout(_) => {
                proof {
                    assert(false);
                }
                vstd::pervasive::unreached()
            },
        }
    }

    /// Prepare the renderer: the terminal variant puts the terminal into
    /// raw input mode, hides the cursor and starts the flush worker; the
    /// buffered variant does nothing at all.
    pub(crate) fn init(&mut self) -> (r: Result<(), std::io::Error>)
        ensures
            old(self).is_buffered() ==> r is Ok && *final(self) == *old(self),
            final(self).is_buffered() == old(self).is_buffered(),
            r is Ok && !old(self).is_buffered() ==> final(self).flush_worker_live(),
    {
        match &mut self.output {
            Output::Stdout(screen) => {
                match enable_raw_mode() {
                    Ok(()) => {},
                    Err(e) => {
                        return Err(e);
                    },
                }
                match hide_cursor() {
                    Ok(()) => {},
                    Err(e) => {
                        return Err(e);
                    },
                }
                screen.worker = Some(spawn_flush_worker(&screen.buffer));
                Ok(())
            },
            Output::Buffered(_) => Ok(()),
        }
    }

    /// Stage the given frame: the buffered variant replaces its stored
    /// text, the terminal variant writes the frame into the shared dirty
    /// buffer and performs no terminal output itself.
    pub(crate) fn render(&mut self, view: String)
        ensures
            final(self).is_buffered() == old(self).is_buffered(),
            old(self).is_buffered() ==> final(self).buffered_contents() == view@,
    {
        match &mut self.output {
            Output::Stdout(screen) => stage_shared(&screen.buffer, view.as_str()),
            Output::Buffered(buffer) => buffer.write(view.as_str()),
        }
    }

    /// Shut the renderer down: the terminal variant stops the flush
    /// worker, blocking until it has returned, then restores normal
    /// input mode and shows the cursor again, whatever the worker
    /// reported; the first failure among the three is handed back. The
    /// buffered variant does nothing at all.
    pub(crate) fn close(&mut self) -> (r: Result<(), std::io::Error>)
        ensures
            old(self).is_buffered() ==> r is Ok && *final(self) == *old(self),
            final(self).is_buffered() == old(self).is_buffered(),
            !final(self).flush_worker_live(),
    {
        match &mut self.output {
            Output::Stdout(screen) => {
                let worker_result: Result<(), std::io::Error> = match screen.worker.take() {
                    Some(worker) => match worker.close() {
                        Ok(flushed) => flushed,
                        Err(message) => Err(io_failure(message)),
                    },
                    None => Ok(()),
                };
                let raw_result = disable_raw_mode();
                let cursor_result = show_cursor();
                match worker_result {
                    Err(e) => Err(e),
                    Ok(()) => match raw_result {
                        Err(e) => Err(e),
                        Ok(()) => cursor_result,
                    },
                }
            },
            Output::Buffered(_) => Ok(()),
        }
    }
}

} // verus!
