//! A `less`-style pager core: a scrollable viewport over an immutable
//! document of text lines, a literal substring search engine with cyclic
//! match traversal, and a modal prompt for entering file names and search
//! patterns.  Every state change is a pure transition that also yields the
//! sequence of screen instructions to perform; the terminal itself is
//! driven by an unverified shell around this crate.

pub mod document;
pub mod help;
pub mod prompt;
pub mod render;
pub mod search;
pub mod state;
