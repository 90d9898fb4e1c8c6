//! Relaxed-arithmetic ("fast-math") wrappers for floating-point values.
//!
//! The [`Fast`](fast::Fast) wrapper selects relaxed arithmetic for the value
//! it holds: its five binary operations assume finite operands and give the
//! optimizer leave to reorder them. Here that unchecked assumption becomes a
//! checked one: each relaxed operation carries a `requires` clause in place
//! of the `unsafe` marker the bare primitives would need, so every verified
//! caller is held to the finiteness precondition.
//!
//! The machine's floating-point values themselves are beyond the verifier;
//! the library is generic over them. [`fast::FastFloat`] names the relaxed
//! primitives a value type must supply; [`fast::Fast`] carries the wrapper,
//! its dispatch layer and the re-wrapping boundary through which the
//! primitive's non-arithmetic operations are delegated untouched; and
//! [`bits`] models the IEEE-754 bit patterns of the two supported widths,
//! with verified classification predicates that a wrapper's delegated
//! method surface can lean on.

pub mod bits;
pub mod fast;
