//! The registers the CPU drives the picture chip with.

pub mod control;
pub mod loopy;
pub mod mask;
pub mod status;
