mod channel;
mod command;
mod config;
mod diff;
mod mailbox;
mod program;
mod renderer;
mod terminal;
mod timer;
mod worker_thread;

pub use config::Config;
pub use mailbox::Mailbox;
pub use program::Program;
pub use program::RuntimeEvent;
pub use renderer::Renderer;
pub use timer::Timer;
pub use worker_thread::WorkerThread;

pub use diff::DrawOp;
pub use diff::clear_ops;
pub use diff::diff_ops;
pub use diff::diff_ops_spec;
pub use diff::frame_ops;
pub use diff::frame_ops_spec;
pub use diff::keeps_line;
pub use diff::lemma_diff_stability;
pub use diff::lemma_frame_ops_nonempty;
pub use diff::line_end;
pub use diff::print_ops;
pub use diff::spec_lines;
pub use diff::split_from;
pub use diff::split_lines;
pub use diff::view_of_last;

pub use command::Action;
pub use command::Command;
pub use command::Thunk;
pub use command::actions_of;
pub use command::concat_actions;
pub use command::lemma_concat_actions_is_flatten;
