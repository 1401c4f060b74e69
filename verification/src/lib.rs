//! Joined views of reference aggregates (the inverse distributive law).
//!
//! A reference to a tuple of references distributes into a tuple of
//! references; this crate provides the inverse: it bundles an aggregate of
//! references into a single joined value, [`Pair`] for two references and
//! [`Slice`] for a contiguous sequence of them, and recovers the aggregate
//! again with one common outer borrow lifetime.
//!
//! The joined value never owns, copies or drops what the references point
//! at; it only stands for the places themselves. Every accessor's contract
//! says exactly which place each recovered reference denotes, and a set of
//! public law functions ([`pair_round_trip`], [`write_pair_via_unified`],
//! [`write_nested_triple`] and their companions) states and proves the
//! round-trip, mutation-path and nesting properties that make the two
//! views interchangeable.

mod laws;
mod pair;
mod slice;

pub use laws::pair_round_trip;
pub use laws::pair_round_trip_mut;
pub use laws::slice_round_trip;
pub use laws::slice_round_trip_mut;
pub use laws::write_element_through_chained_views;
pub use laws::write_nested_quad;
pub use laws::write_nested_triple;
pub use laws::write_pair_via_accessors;
pub use laws::write_pair_via_unified;
pub use laws::write_slice_element;
pub use pair::Pair;
pub use slice::Slice;
