//! Non-empty data structures.
//!
//! Every collection in this crate holds its first entry in a field of its own
//! and the remaining entries in an ordinary growable collection, so a value of
//! one of these types always has at least one entry.
//!
//! The types carry the names of the collections they wrap. Refer to them by
//! path (`unempty::Vec`) rather than importing them over the standard ones.

pub mod capacity;
pub mod error;
pub mod hashmap;
pub mod hashset;
pub mod text;
pub mod vec;

pub use crate::capacity::Capacity;
pub use crate::error::TryFromError;
pub use crate::hashmap::HashMap;
pub use crate::hashset::HashSet;
pub use crate::vec::Vec;
