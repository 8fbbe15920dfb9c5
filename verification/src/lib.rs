//! Reverse-mode automatic differentiation on an append-only tape.
//!
//! Arithmetic on [`Variable`] handles records one [`Node`] per elementary
//! operation onto a [`Tape`]; a single backward sweep ([`Variable::accumulate`])
//! then yields the partial derivative of the terminal value with respect to
//! every recorded node, readable through a [`GradientView`].
//!
//! The engine is generic over the scalar algebra: any type implementing
//! [`Scalar`] can flow through the tape. The crate ships one exact instance
//! (saturating unsigned integers, in [`exact`]); callers supply their own
//! instance for approximate number types such as IEEE doubles.

pub mod exact;
pub mod gradient;
pub mod laws;
pub mod scalar;
pub mod tape;
pub mod variable;

pub use gradient::GradientView;
pub use scalar::Scalar;
pub use tape::Node;
pub use tape::Tape;
pub use variable::Variable;
