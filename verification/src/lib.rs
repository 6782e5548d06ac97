//! Process orchestration for a desktop launcher of game-playing agents.
//!
//! The launcher runs short-lived helper processes, such as package installs,
//! and shows what they print; and it keeps one long-lived worker, the match
//! handler, to which it sends commands. This crate holds the rules of both:
//!
//! - [`console`]: the bounded, ordered log that everything is printed to;
//! - [`capture`]: the table of slots that holds the output streams of the
//!   helpers that are running;
//! - [`aggregator`]: the pass that reads one line from each of those streams
//!   and collects the lines into one update;
//! - [`channel`]: the line protocol to the match handler, with its rule for
//!   starting the worker at most once for a command;
//! - [`runner`]: how a helper's run is reported, and sequences of helpers that
//!   stop at the first failure;
//! - [`folders`]: the bot folders and files that the launcher knows;
//! - [`packages`]: what a bundle is told about its missing python packages.
//!
//! Nothing in this crate performs I/O. Every operation that waits on a process
//! or a pipe is cut at that point: the caller performs it and hands the
//! outcome back as a plain value.

pub mod aggregator;
pub mod capture;
pub mod channel;
pub mod console;
pub mod folders;
pub mod packages;
pub mod runner;
mod text;

pub use capture::CaptureRegistry;
pub use channel::{issue_match_handler_command, CommandChannel};
pub use console::{ccprintln, ConsoleLog};
pub use folders::{BotFolder, BotFolderSettings};
