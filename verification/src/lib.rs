//! Lazy, content-addressed reference cells.
//!
//! A cell holds either a decoded value or the content identifier under which
//! the value's encoding is persisted. It loads on first access, tracks
//! modification and writes back on save. [`Link`] always persists out of line;
//! [`AutoLink`] embeds small values in the parent's encoding instead, and
//! [`MaybeLink`] is the form in which such a cell travels: the value itself or
//! its identifier. Reading a [`Node`] of a self-describing encoding decides
//! between the two without a schema.
//!
//! The backend is a type that implements [`StaticStore`]. The cells promise
//! what they hand to it and what they make of its answers; what the answers
//! are is the backend's business.

pub mod address;
pub mod auto_link;
pub mod cache;
pub mod link;
pub mod maybe_link;
pub mod store;

pub use address::{Cid, CidModel, MAX_DIGEST_LEN};
pub use auto_link::{AutoLink, InlineState, DEFAULT_INLINE_LIMIT};
pub use link::{Link, LinkState};
pub use maybe_link::{FormatError, MaybeLink, Node, Reading, Resolution, Shape};
pub use store::{CidShape, Magic, MagicStore, StaticStore};
