//! Execution-context core of a rule-language compiler.
//!
//! The crate provides the pieces that make host-implemented built-in
//! functions callable from generated guest code, and that give code
//! generation a correct model of where compiler-introduced temporaries
//! live:
//!
//! * [`signature`]: the canonical encoding of a host function's
//!   parameter and return types into a link-time symbol suffix.
//! * [`export`]: the registry of exported host functions that the
//!   virtual-machine linker consults when resolving imports.
//! * [`stack`]: the frame-based allocator for compiler-introduced
//!   temporaries, mirrored between guest memory and the host side.
//! * [`context`]: the per-compilation orchestrator that threads rule
//!   and pattern bookkeeping and the variables stack through code
//!   generation.
//! * [`errors`]: the typed error values the compiler raises.

pub mod context;
pub mod errors;
pub mod export;
pub mod signature;
pub mod stack;
pub mod types;
