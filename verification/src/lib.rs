//! Input normalization for syntax-highlighted terminal display.
//!
//! The crate prepares raw source text before it is handed to a highlighting
//! engine: it can remove one layer of a surrounding fenced-code-block
//! delimiter and strip pre-existing terminal escape sequences, in a fixed
//! order (unwrap first, then strip).

pub mod codeblock;
pub mod pipeline;
