//! Syntax highlighting to HTML and CSS, driven by tree-sitter grammars and
//! Helix-style TOML themes.
//!
//! A [`Theme`] is resolved from a theme document. A [`Renderer`] made with it
//! turns the highlight events of a source buffer into one HTML fragment per
//! line, and derives the stylesheet that colours the fragments.

pub mod css;
pub mod document;
pub mod error;
pub mod events;
pub mod lang;
pub mod lines;
pub mod renderer;
pub mod scope;
pub mod theme;

pub use error::{Error, HighlightError, Malformed};
pub use events::HighlightEvent;
pub use lang::{infos, Info, Lang};
pub use renderer::Renderer;
pub use theme::{Style, Theme};
