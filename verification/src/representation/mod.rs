//! Color representation: how the pixels of a surface encode colors.

pub mod calls;
pub mod named;
pub mod state;
pub mod surface;
