//! The binary operator engine: one module per operator, and the shared
//! identifier-resolution protocol.

pub mod add;
pub mod divide;
pub mod expo;
pub mod function;
pub mod minus;
pub mod mult;
