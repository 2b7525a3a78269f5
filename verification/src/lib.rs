//! A minimal reverse-mode automatic-differentiation engine over dense
//! two-dimensional arrays of a generic scalar type. A composition of
//! elementwise unary operations is evaluated forward, each operation caching
//! its input, and a gradient is then propagated backward through each
//! operation by the chain rule; a central-difference oracle estimates the same
//! derivative numerically.

pub mod chain;
pub mod func;
pub mod grid;
pub mod scalar;
pub mod variable;
