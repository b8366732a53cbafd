//! Pairs of text-like values.
//!
//! A [`pair::Pair`] is a container exposing exactly two ordered slots, each
//! convertible to a read-only text view. Homogeneous containers (2-tuples and
//! 2-element arrays) implement it directly; [`sustained::SelfSustainedPair`]
//! owns a backing buffer together with two derived values, each either a span
//! of that buffer or an independently owned string.

pub mod pair;
pub mod render;
pub mod sustained;
pub mod text;
