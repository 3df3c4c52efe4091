//! Deterministic avatar derivation: initials extracted from a display name,
//! a two-color gradient palette chosen by a hash of the same name, and an
//! engine-agnostic composition that a rendering engine can turn into pixels.

pub mod composition;
pub mod initials;
pub mod palette;
