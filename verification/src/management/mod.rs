//! Color management: image descriptions, and how clients make and use them.

pub mod builder;
pub mod calls;
pub mod description;
pub mod history;
pub mod icc_creator;
pub mod identity;
pub mod image_description;
pub mod laws;
pub mod manager;
pub mod named;
pub mod output;
pub mod params_creator;
pub mod state;
pub mod surface;
pub mod weak;
