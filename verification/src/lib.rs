//! Key-chord resolution for a modal terminal editor: a structured chord type
//! with a textual codec, the built-in per-mode binding tables, and a
//! user-supplied remap layer loaded from a configuration document.

pub mod chord;
pub mod codec;
pub mod mode;
pub mod table;
pub mod bindings;
pub mod remap;
pub mod dispatch;

pub use chord::Chord;
pub use chord::KeyCode;
pub use chord::ModifierSet;
