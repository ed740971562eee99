//! Core logic of a small translation CLI: the language-pair argument
//! grammar, its parser, the dispatch decision for the backend call, and
//! the renderers for results and diagnostics. The network call itself,
//! argument tokenization and terminal styling live outside this crate.

pub mod dispatch;
pub mod lang;
pub mod pair;
pub mod render;
pub mod report;
