//! Byte-size estimation for parsed JSON value trees.
//!
//! The crate models a parsed JSON document as a [`JsonValue`] tree and
//! computes an approximate in-memory footprint for it: every node is charged
//! a fixed envelope cost, strings are charged their allocated capacity plus a
//! fixed per-string overhead, and object entries are charged an additional
//! per-entry table overhead. The estimate is exactly pinned down by the spec
//! function [`estimate`], and [`sizeof_val`] is proved to return it.

mod estimate;
mod value;

pub use estimate::estimate;
pub use estimate::estimate_elems;
pub use estimate::estimate_members;
pub use estimate::lemma_array_estimate;
pub use estimate::lemma_array_push_monotone;
pub use estimate::lemma_estimate_at_least_envelope;
pub use estimate::lemma_estimate_elems_concat;
pub use estimate::lemma_estimate_members_concat;
pub use estimate::lemma_leaf_estimate;
pub use estimate::lemma_nested_objects_estimate;
pub use estimate::lemma_object_estimate;
pub use estimate::lemma_object_push_monotone;
pub use estimate::lemma_str_capacity_monotone;
pub use estimate::lemma_str_estimate;
pub use estimate::member_cost;
pub use estimate::sizeof_val;
pub use estimate::try_sizeof_val;
pub use estimate::ENVELOPE;
pub use estimate::MAP_ENTRY_OVERHEAD;
pub use estimate::STRING_OVERHEAD;
pub use estimate::WORD_BYTES;
pub use value::JsonStr;
pub use value::JsonValue;
