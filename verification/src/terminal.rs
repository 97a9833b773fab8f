use vstd::prelude::*;

use crossterm::ExecutableCommand;
use crossterm::QueueableCommand;
use std::io::Write;

verus! {

#[verifier::external_type_specification]
#[verifier::external_body]
pub struct ExIoError(std::io::Error);

#[verifier::external_type_specification]
#[verifier::external_body]
pub struct ExTermEvent(crossterm::event::Event);

/// Relies on `std::io::Error::other`: an error value carrying the given
/// message, used where an internal invariant of the runtime was broken.
#[verifier::external_body]
pub(crate) fn io_failure(message: &'static str) -> std::io::Error {
    std::io::Error::other(message)
}

/// Relies on `crossterm::event::poll`: waits for at most the given time
/// and says whether an input event is ready to be read.
#[verifier::external_body]
pub(crate) fn poll_input(timeout: core::time::Duration) -> Result<bool, std::io::Error> {
    crossterm::event::poll(timeout)
}

/// Relies on `crossterm::event::read`: blocks until an input event is
/// available and hands it back decoded.
#[verifier::external_body]
pub(crate) fn read_input() -> Result<crossterm::event::Event, std::io::Error> {
    crossterm::event::read()
}

/// Relies on `crossterm::terminal::enable_raw_mode`: puts the terminal
/// into raw input mode.
#[verifier::external_body]
pub(crate) fn enable_raw_mode() -> Result<(), std::io::Error> {
    crossterm::terminal::enable_raw_mode()
}

/// Relies on `crossterm::terminal::disable_raw_mode`: restores normal
/// input mode.
#[verifier::external_body]
pub(crate) fn disable_raw_mode() -> Result<(), std::io::Error> {
    crossterm::terminal::disable_raw_mode()
}

/// Relies on `crossterm::ExecutableCommand::execute` with
/// `crossterm::cursor::Hide`: hides the cursor now.
#[verifier::external_body]
pub(crate) fn hide_cursor() -> Result<(), std::io::Error> {
    std::io::stdout().execute(crossterm::cursor::Hide).map(|_| ())
}

/// Relies on `crossterm::ExecutableCommand::execute` with
/// `crossterm::cursor::Show`: shows the cursor now.
#[verifier::external_body]
pub(crate) fn show_cursor() -> Result<(), std::io::Error> {
    std::io::stdout().execute(crossterm::cursor::Show).map(|_| ())
}

/// Relies on `crossterm::QueueableCommand::queue` with
/// `crossterm::terminal::Clear`: queues clearing the line the cursor is
/// on; nothing reaches the screen before the next flush.
#[verifier::external_body]
pub(crate) fn queue_clear_line() -> Result<(), std::io::Error> {
    std::io::stdout().queue(crossterm::terminal::Clear(
        crossterm::terminal::ClearType::CurrentLine,
    )).map(|_| ())
}

/// Relies on `crossterm::QueueableCommand::queue` with
/// `crossterm::cursor::MoveUp`: queues moving the cursor up one line.
#[verifier::external_body]
pub(crate) fn queue_cursor_up() -> Result<(), std::io::Error> {
    std::io::stdout().queue(crossterm::cursor::MoveUp(1)).map(|_| ())
}

/// Relies on `crossterm::QueueableCommand::queue` with
/// `crossterm::style::Print`: queues printing the given text as it is.
#[verifier::external_body]
pub(crate) fn queue_text(text: &str) -> Result<(), std::io::Error> {
    std::io::stdout().queue(crossterm::style::Print(text)).map(|_| ())
}

/// Relies on `std::io::Write::flush` on the standard output: everything
/// queued so far reaches the terminal.
#[verifier::external_body]
pub(crate) fn flush_stdout() -> Result<(), std::io::Error> {
    std::io::stdout().flush()
}

} // verus!
