use infinitegfx_core::address_mode::GfxAddressMode;
use infinitegfx_core::effects::{crossfade, curtain, flip, space_bend, sparkle, warp};
use infinitegfx_core::node::{Binding, BindingKind, NodeBuffers, NodeConfig, ShaderInputs};

fn b(slot: u32, kind: BindingKind) -> Binding {
    Binding { slot, kind }
}

#[test]
fn new_node_has_defaults() {
    let node = NodeConfig::new("Test", "src", ShaderInputs::One);
    assert_eq!(node.label, "Test");
    assert_eq!(node.shader_source, "src");
    assert_eq!(node.inputs, ShaderInputs::One);
    assert_eq!(node.uniform_size, 0);
    assert!(!node.has_uniform_updater);
    assert!(node.static_data.is_none());
    assert_eq!(node.address_mode, GfxAddressMode::ClampToEdge);
    assert_eq!(node.buffers(), NodeBuffers { uniforms: false, static_data: false });
    assert!(!node.writes_uniforms(node.buffers()));
}

#[test]
fn builders_set_their_fields() {
    let node = NodeConfig::new("N", "s", ShaderInputs::Zero)
        .with_uniform_size(32)
        .with_static_data(vec![1, 2, 3, 4])
        .with_address_mode(GfxAddressMode::MirrorRepeat);
    assert_eq!(node.uniform_size, 32);
    assert_eq!(node.static_data, Some(vec![1, 2, 3, 4]));
    assert_eq!(node.address_mode, GfxAddressMode::MirrorRepeat);
    assert_eq!(node.buffers(), NodeBuffers { uniforms: true, static_data: true });
    assert!(!node.writes_uniforms(node.buffers()));
    let dynamic = node.with_uniforms(16);
    assert_eq!(dynamic.uniform_size, 16);
    assert!(dynamic.has_uniform_updater);
    assert!(dynamic.writes_uniforms(dynamic.buffers()));
    assert!(!dynamic.writes_uniforms(NodeBuffers::none()));
    assert_eq!(dynamic.address_mode, GfxAddressMode::MirrorRepeat);
    let zero = NodeConfig::new("N", "s", ShaderInputs::One).with_uniforms(0);
    assert!(!zero.writes_uniforms(zero.buffers()));
}

#[test]
fn layout_of_plain_filter() {
    let node = NodeConfig::new("F", "s", ShaderInputs::One);
    let layout = vec![b(1, BindingKind::Texture), b(2, BindingKind::Sampler)];
    assert_eq!(node.layout_bindings(), layout);
    assert_eq!(node.pass_bindings(node.buffers()), Some(layout));
}

#[test]
fn layout_of_full_transition() {
    let node = NodeConfig::new("T", "s", ShaderInputs::Two)
        .with_uniform_size(16)
        .with_static_data(vec![0; 16]);
    let layout = vec![
        b(0, BindingKind::Uniforms),
        b(1, BindingKind::Texture),
        b(2, BindingKind::Sampler),
        b(3, BindingKind::Texture),
        b(4, BindingKind::StaticData),
    ];
    assert_eq!(node.layout_bindings(), layout);
    assert_eq!(node.pair_bindings(node.buffers()), layout);
    assert_eq!(node.pass_bindings(node.buffers()), None);
}

#[test]
fn render_bindings_match_layout_for_one_input() {
    let node = NodeConfig::new("G", "s", ShaderInputs::One)
        .with_uniforms(16)
        .with_static_data(vec![7]);
    assert_eq!(node.pass_bindings(node.buffers()), Some(node.layout_bindings()));
    assert_eq!(node.pair_bindings(node.buffers()).len(), 5);
}

#[test]
fn bindings_follow_buffers_made_at_setup() {
    let node = NodeConfig::new("L", "s", ShaderInputs::One);
    let created = node.buffers();
    let later = node.with_uniform_size(16).with_static_data(vec![1]);
    assert_eq!(
        later.pass_bindings(created),
        Some(vec![b(1, BindingKind::Texture), b(2, BindingKind::Sampler)])
    );
    assert_eq!(later.pass_bindings(later.buffers()).map(|v| v.len()), Some(4));
    let pair = NodeConfig::new("P", "s", ShaderInputs::Two);
    assert_eq!(
        pair.pair_bindings(NodeBuffers::none()),
        vec![b(1, BindingKind::Texture), b(2, BindingKind::Sampler), b(3, BindingKind::Texture)]
    );
}

#[test]
fn effect_presets() {
    let f = flip("flip src");
    assert_eq!((f.label.as_str(), f.inputs, f.uniform_size), ("FlipEffect", ShaderInputs::Two, 32));
    assert_eq!(f.shader_source, "flip src");
    let w = warp("w");
    assert_eq!((w.label.as_str(), w.inputs, w.uniform_size), ("WarpEffect", ShaderInputs::Two, 16));
    let c = crossfade("c");
    assert_eq!((c.label.as_str(), c.inputs, c.uniform_size), ("Crossfade", ShaderInputs::Two, 16));
    let s = space_bend("s");
    assert_eq!((s.label.as_str(), s.inputs, s.uniform_size), ("SpaceBend", ShaderInputs::Two, 16));
    let cu = curtain("cu");
    assert_eq!((cu.label.as_str(), cu.inputs, cu.uniform_size), ("CurtainEffect", ShaderInputs::One, 16));
    let sp = sparkle("sp");
    assert_eq!((sp.label.as_str(), sp.inputs, sp.uniform_size), ("SparkleEffect", ShaderInputs::One, 0));
    assert_eq!(sp.layout_bindings(), vec![b(1, BindingKind::Texture), b(2, BindingKind::Sampler)]);
    for node in [f, w, c, s, cu, sp] {
        assert!(!node.has_uniform_updater);
        assert!(node.static_data.is_none());
        assert_eq!(node.address_mode, GfxAddressMode::ClampToEdge);
    }
}
