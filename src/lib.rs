//! Rewrites a user's message history on a chat platform: pages through the
//! user's messages, skips those already recorded as rewritten, replaces the
//! content of the others and records them.
//!
//! The library holds the decisions; the network, the record database and the
//! clock are driven by the caller, who feeds the results back in.

pub mod content;
pub mod message;
pub mod scan;

pub use content::{
    first_article, first_title, generate, render_article, replace_marks, Article,
    ContentSourceError,
};
pub use message::{parse_page, MessageRef, RawMessage, SearchEntry};
pub use scan::{Action, Event, Phase, ScanLoop};
