//! The forked child side of the shell: routing a command to a builtin,
//! parsing each builtin's arguments, and the text the builtins print.

pub mod argparse;
pub mod dispatch;
pub mod error;
pub mod exec_fd;
pub mod explain;
pub mod fdops;
pub mod fdpass;
pub mod flags;
pub mod flock;
pub mod help;
pub mod ls;
pub mod printf;
pub mod readlink;
pub mod run;
pub mod simple;
pub mod statx;
pub mod target;
pub mod type_cmd;

pub use dispatch::Command;
