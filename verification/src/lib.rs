//! Traversal-safe validation of user-supplied relative path fragments.
//!
//! The crate decomposes a candidate path string into components and accepts
//! it only when every component is a current-directory marker or a normal
//! named segment; any parent-directory component, root marker, or
//! drive/UNC-style prefix rejects the whole string.  A [`SafePath`] can only
//! be obtained by passing that check, and the same check backs the three
//! extraction channels (route parameter, form field, JSON field).

pub mod classify;
pub mod extract;

pub use classify::is_traversal_attack;
pub use extract::{PathExtractionError, SafePath, SafePathRejection};
