//! The core of a small terminal text editor: lines addressed by grapheme
//! clusters, a document made of such lines, and the cursor and viewport
//! rules that move through it.

pub mod clusters;
pub mod cursor;
pub mod document;
pub mod editor;
pub mod graphemes;
pub mod lines;
pub mod row;
pub mod std_specs;
pub mod terminal;
pub mod text;

pub use document::Document;
pub use editor::{Action, Editor, EditorView, Frame, Key, Position, StatusMessage, MESSAGE_TIME};
pub use row::Row;
pub use terminal::Size;
