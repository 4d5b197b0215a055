//! Verified core of `fdshell`, a small shell whose commands work on file
//! descriptors held in `%name` variables.
//!
//! The library holds the shell's decisions: argument parsing of the
//! builtins, `printf` rendering, `test` expression evaluation, block and
//! conditional-list scanning, and the text the builtins print. Everything
//! that touches the operating system lives outside and hands plain values in.

pub mod bytes;
pub mod error;
pub mod num;
pub mod scan;
pub mod comment;
pub mod cond;
pub mod cmd_subst;
pub mod cli;
pub mod debug;
pub mod intercept;
pub mod child;
