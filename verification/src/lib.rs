//! Verified core of a shader-based graphics library: effect-node
//! configuration and bind-group layout, ping-pong routing of effect
//! chains, text layout and the bitmap font, and audio clock scheduling.

pub mod address_mode;
pub mod audio;
pub mod chain;
pub mod effects;
pub mod font;
pub mod node;
pub mod text;
