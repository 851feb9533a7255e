use vstd::prelude::*;
use crate::address_mode::GfxAddressMode;
use crate::node::{NodeConfig, ShaderInputs};

verus! {

/// Configures a flip transition running `shader_source`.
pub fn flip(shader_source: &str) -> (node: NodeConfig)
    ensures
        node.holds("FlipEffect"@, shader_source@, ShaderInputs::Two, 32, false, None,
            GfxAddressMode::ClampToEdge),
{
    NodeConfig::new("FlipEffect", shader_source, ShaderInputs::Two).with_uniform_size(32)
}

/// Configures a warp transition running `shader_source`.
pub fn warp(shader_source: &str) -> (node: NodeConfig)
    ensures
        node.holds("WarpEffect"@, shader_source@, ShaderInputs::Two, 16, false, None,
            GfxAddressMode::ClampToEdge),
{
    NodeConfig::new("WarpEffect", shader_source, ShaderInputs::Two).with_uniform_size(16)
}

/// Configures a crossfade transition running `shader_source`.
pub fn crossfade(shader_source: &str) -> (node: NodeConfig)
    ensures
        node.holds("Crossfade"@, shader_source@, ShaderInputs::Two, 16, false, None,
            GfxAddressMode::ClampToEdge),
{
    NodeConfig::new("Crossfade", shader_source, ShaderInputs::Two).with_uniform_size(16)
}

/// Configures a space-bend transition running `shader_source`.
pub fn space_bend(shader_source: &str) -> (node: NodeConfig)
    ensures
        node.holds("SpaceBend"@, shader_source@, ShaderInputs::Two, 16, false, None,
            GfxAddressMode::ClampToEdge),
{
    NodeConfig::new("SpaceBend", shader_source, ShaderInputs::Two).with_uniform_size(16)
}

/// Configures a laser curtain filter running `shader_source`; its uniforms
/// hold four 32-bit values.
pub fn curtain(shader_source: &str) -> (node: NodeConfig)
    ensures
        node.holds("CurtainEffect"@, shader_source@, ShaderInputs::One, 16, false, None,
            GfxAddressMode::ClampToEdge),
{
    NodeConfig::new("CurtainEffect", shader_source, ShaderInputs::One).with_uniform_size(16)
}

/// Configures a sparkle/bloom filter running `shader_source`; it has no
/// uniforms of its own.
pub fn sparkle(shader_source: &str) -> (node: NodeConfig)
    ensures
        node.holds("SparkleEffect"@, shader_source@, ShaderInputs::One, 0, false, None,
            GfxAddressMode::ClampToEdge),
{
    NodeConfig::new("SparkleEffect", shader_source, ShaderInputs::One)
}

} // verus!
