//! Renders source code as syntax-highlighted HTML with tree-sitter.
//!
//! The crate holds the parts of that job that can be reasoned about: the
//! catalogue of languages, the layout of the grammar cache, the steps by
//! which a missing grammar is fetched and built, and the table that the
//! highlighted lines are written into. Touching the disk, the network and
//! the compiler is left to the caller, who is told what to do one step at a
//! time.
pub mod cache;
pub mod error;
pub mod pipeline;
pub mod render;
pub mod table;
pub mod target_language;
pub mod text;

pub use error::HtmlRenderingError;
pub use pipeline::{check_for_parser, generate_parser, render_html};
pub use render::string_html;
pub use target_language::TargetLanguage;
