//! Launching the Gradle wrapper of a project from anywhere inside the
//! project.
//!
//! The launcher walks upward from its starting directory to the nearest
//! directory that holds a settings file: the project root. It walks upward
//! once more, again from the starting directory, to the nearest directory
//! that holds the wrapper script, and falls back on the system-wide `gradle`
//! where there is none. Then it hands over: the delegate runs inside the
//! project root with the user's arguments, and its exit code becomes the
//! launcher's own.
//!
//! This crate holds the decisions and proves them. It reads no directory
//! and starts no process: a caller lists the directories that a [`Search`]
//! asks for, runs the [`Invocation`] it ends in, and reports the
//! [`Outcome`]. For a directory tree held in memory, [`Search::run_on`] does
//! the listing itself.
//!
//! [`Search`]: launcher::Search
//! [`Search::run_on`]: launcher::Search::run_on
//! [`Invocation`]: delegate::Invocation
//! [`Outcome`]: delegate::Outcome

pub mod delegate;
pub mod launcher;
pub mod marker;
pub mod path;
pub mod platform;
pub mod search;
pub mod text;
pub mod tree;
