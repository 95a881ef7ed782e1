//! The core of a small interactive command interpreter: it splits a line
//! into words by shell quoting rules, recognises the built-in commands,
//! looks programs up on a search path and decides, step by step, what the
//! session around it has to do. Reading lines, touching the file system
//! and starting processes are left to the caller.

pub mod command;
pub mod dispatch;
pub mod error;
pub mod resolver;
pub mod session;
pub mod steps;
pub mod text;
pub mod tokenizer;

pub use crate::command::Command;
pub use crate::dispatch::enter_home;
pub use crate::error::{ShellError, Stream};
pub use crate::resolver::{is_executable, is_runnable, join_path, FileInfo};
pub use crate::session::Shell;
pub use crate::steps::{Goal, Lookup, Reply, Step};
pub use crate::text::is_whitespace;
pub use crate::tokenizer::{parse_args, step, Action, Quote};
