//! The integer layout behind drawings.

pub mod terrain;
