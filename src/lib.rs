//! Owning handles over a reference-counted native object store, and a
//! builder API that wires image filter nodes into a graph through them.
//!
//! `native` holds the object store and its reference counting, `handle` the
//! owning handle type, `objects` the handle types of each object kind,
//! `image_filters` the graph builders, `font_provider` a font manager subtype,
//! and `laws` the proved properties that relate these operations.
use vstd::prelude::*;

pub mod types;
pub mod native;
pub mod handle;
pub mod objects;
pub mod image_filters;
pub mod font_provider;
pub mod laws;

verus! {

} // verus!
