//! A virtual pet that answers typed commands.
//!
//! The crate holds the rules of the conversation: what each line of input
//! means, how the pet changes, how the number-guessing game answers a guess,
//! and which prompt comes next. Reading lines and printing text is left to
//! the caller.

pub mod command;
pub mod guessing;
pub mod pet;
pub mod random;
pub mod rectangle;
pub mod search;
pub mod session;
pub mod text;
