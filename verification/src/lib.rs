//! A field database over a directory of flat binary sample streams: named
//! fields are either raw sample streams or derived fields computed from other
//! fields, with typed, frame/sample-addressed read and write access to the
//! raw streams.
//!
//! The crate models the storage engine's handle as verified in-memory state
//! (`engine`), and builds the field-entry model, the entry codec and the
//! session layer on top of it.

pub mod data;
pub mod dirfile;
pub mod engine;
pub mod entry;
pub mod gd_error;
pub mod types;

pub use data::{DataVec, DataVecView};
pub use dirfile::{frame_split, Dirfile, FieldOrEntry};
pub use engine::{AliasEntry, DirfileImage, EngineField, EngineHandle};
pub use entry::{Entry, EntryRecord, EntryType, LincomData, LinterpData, RawData};
pub use gd_error::GdError;
pub use types::GdTypes;
