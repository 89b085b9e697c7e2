//! Core logic of an interactive command shell: the line editor's keystroke
//! handling, the tokenizer and redirection resolver, the command registry, and
//! the edit-distance matcher that suggests command names.

pub mod commands;
pub mod dispatch;
pub mod error;
pub mod levenshtein;
pub mod line_editor;
pub mod names;
pub mod redirect;
pub mod text;
pub mod tokenizer;

pub use error::ShellError;
pub use levenshtein::Levenshtein;
