//! Plain data shared across the crate: source spans and the type tag
//! attached to stack variables.

use vstd::prelude::*;

verus! {

/// A region of rule source text, kept with errors and warnings so that
/// the diagnostics collaborator can point at the offending code. The
/// core never renders spans; it only carries them.
#[derive(Clone, Copy, Debug, PartialEq, Eq, Structural)]
pub struct Span {
    /// Byte offset where the region starts.
    pub start: usize,
    /// Byte offset just past the end of the region.
    pub end: usize,
}

/// The type of a value handled during the evaluation of rule
/// conditions.
#[derive(Clone, Copy, Debug, PartialEq, Eq, Structural)]
pub enum Type {
    Unknown,
    Integer,
    Float,
    Bool,
    String,
    Regexp,
    Struct,
    Array,
    Mapping,
    Func,
}

} // verus!
