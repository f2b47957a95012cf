pub mod arith;
pub mod calc;
pub mod ieee;
