use vstd::prelude::*;
use crate::address_mode::GfxAddressMode;

verus! {

/// Describes the number of inputs for a shader node.
#[derive(Debug, Clone, Copy, PartialEq, Eq, Structural)]
pub enum ShaderInputs {
    /// No input texture: a source.
    Zero,
    /// One input texture: a filter.
    One,
    /// Two input textures: a transition.
    Two,
}

/// What a slot of a node's bind group holds.
#[derive(Debug, Clone, Copy, PartialEq, Eq, Structural)]
pub enum BindingKind {
    /// The node's uniform buffer, rewritten as time goes on.
    Uniforms,
    /// A texture the node samples.
    Texture,
    /// The node's sampler.
    Sampler,
    /// The node's buffer of static data, written once.
    StaticData,
}

/// One slot of a node's bind group.
#[derive(Debug, Clone, Copy, PartialEq, Eq, Structural)]
pub struct Binding {
    pub slot: u32,
    pub kind: BindingKind,
}

/// The slots of a node's bind group layout: the uniform buffer in slot 0 if
/// the node has uniforms, the first texture in slot 1, the sampler in slot
/// 2, the second texture in slot 3 for a two-input node, the static data in
/// slot 4 if the node has any.
pub open spec fn spec_layout(has_uniforms: bool, inputs: ShaderInputs, has_static: bool) -> Seq<Binding> {
    (if has_uniforms {
        seq![Binding { slot: 0, kind: BindingKind::Uniforms }]
    } else {
        Seq::empty()
    }) + seq![
        Binding { slot: 1, kind: BindingKind::Texture },
        Binding { slot: 2, kind: BindingKind::Sampler },
    ] + (if inputs == ShaderInputs::Two {
        seq![Binding { slot: 3, kind: BindingKind::Texture }]
    } else {
        Seq::empty()
    }) + (if has_static {
        seq![Binding { slot: 4, kind: BindingKind::StaticData }]
    } else {
        Seq::empty()
    })
}

/// The slots of the bind group of a render with one input texture: the
/// uniform buffer in slot 0 if the node has uniforms, the texture in slot 1,
/// the sampler in slot 2, the static data in slot 4 if there is any.
pub open spec fn spec_pass_bindings(has_uniforms: bool, has_static: bool) -> Seq<Binding> {
    (if has_uniforms {
        seq![Binding { slot: 0, kind: BindingKind::Uniforms }]
    } else {
        Seq::empty()
    }) + seq![
        Binding { slot: 1, kind: BindingKind::Texture },
        Binding { slot: 2, kind: BindingKind::Sampler },
    ] + (if has_static {
        seq![Binding { slot: 4, kind: BindingKind::StaticData }]
    } else {
        Seq::empty()
    })
}

/// The bind group a one-input render builds fits the layout that a node of
/// zero or one inputs was set up with, whatever builders ran on it since:
/// both are made from the buffers setting it up made. (For a two-input
/// node, `pair_bindings` is that layout by its contract.)
pub proof fn lemma_render_bindings_match_layout(node: NodeConfig)
    ensures
        node.inputs != ShaderInputs::Two ==> spec_pass_bindings(
            node.spec_buffers().uniforms,
            node.spec_buffers().static_data,
        ) == spec_layout(node.spec_buffers().uniforms, node.inputs, node.spec_buffers().static_data),
{
    let b = node.spec_buffers();
    assert(node.inputs != ShaderInputs::Two ==> spec_pass_bindings(b.uniforms, b.static_data)
        =~= spec_layout(b.uniforms, node.inputs, b.static_data));
}

/// A layout holds the uniform buffer in slot 0 exactly when the node has
/// uniforms, the static data in slot 4 exactly when it has static data, a
/// second texture in slot 3 exactly for a two-input node, and always the
/// texture in slot 1 and the sampler in slot 2.
pub proof fn lemma_layout_holds_buffers(has_uniforms: bool, inputs: ShaderInputs, has_static: bool)
    ensures
        has_uniforms <==> spec_layout(has_uniforms, inputs, has_static).contains(
            Binding { slot: 0, kind: BindingKind::Uniforms },
        ),
        has_static <==> spec_layout(has_uniforms, inputs, has_static).contains(
            Binding { slot: 4, kind: BindingKind::StaticData },
        ),
        inputs == ShaderInputs::Two <==> spec_layout(has_uniforms, inputs, has_static).contains(
            Binding { slot: 3, kind: BindingKind::Texture },
        ),
        spec_layout(has_uniforms, inputs, has_static).contains(Binding { slot: 1, kind: BindingKind::Texture }),
        spec_layout(has_uniforms, inputs, has_static).contains(Binding { slot: 2, kind: BindingKind::Sampler }),
{
    let l = spec_layout(has_uniforms, inputs, has_static);
    let u: Seq<Binding> = if has_uniforms {
        seq![Binding { slot: 0, kind: BindingKind::Uniforms }]
    } else {
        Seq::empty()
    };
    let mid = seq![
        Binding { slot: 1, kind: BindingKind::Texture },
        Binding { slot: 2, kind: BindingKind::Sampler },
    ];
    let t: Seq<Binding> = if inputs == ShaderInputs::Two {
        seq![Binding { slot: 3, kind: BindingKind::Texture }]
    } else {
        Seq::empty()
    };
    let st: Seq<Binding> = if has_static {
        seq![Binding { slot: 4, kind: BindingKind::StaticData }]
    } else {
        Seq::empty()
    };
    assert(l =~= u + mid + t + st);
    let u_len = u.len() as int;
    assert(l[u_len] == Binding { slot: 1, kind: BindingKind::Texture });
    assert(l[u_len + 1] == Binding { slot: 2, kind: BindingKind::Sampler });
    if has_uniforms {
        assert(l[0] == Binding { slot: 0, kind: BindingKind::Uniforms });
    } else {
        assert forall|i: int| 0 <= i < l.len() implies l[i] != (Binding { slot: 0, kind: BindingKind::Uniforms }) by {
            assert(l[i] == (mid + t + st)[i]);
        }
    }
    let tl = u_len + 2;
    if inputs == ShaderInputs::Two {
        assert(l[tl] == Binding { slot: 3, kind: BindingKind::Texture });
    } else {
        assert forall|i: int| 0 <= i < l.len() implies l[i] != (Binding { slot: 3, kind: BindingKind::Texture }) by {
            if i < u_len {
                assert(l[i] == u[i]);
            } else if i < tl {
                assert(l[i] == mid[i - u_len]);
            } else {
                assert(l[i] == st[i - tl]);
            }
        }
    }
    let sl = tl + t.len();
    if has_static {
        assert(l[sl] == Binding { slot: 4, kind: BindingKind::StaticData });
    } else {
        assert forall|i: int| 0 <= i < l.len() implies l[i] != (Binding { slot: 4, kind: BindingKind::StaticData }) by {
            if i < u_len {
                assert(l[i] == u[i]);
            } else if i < tl {
                assert(l[i] == mid[i - u_len]);
            } else {
                assert(l[i] == t[i - tl]);
            }
        }
    }
}

/// A node makes a uniform buffer exactly when its uniform size is not 0, and
/// a static buffer exactly when it has static data; its layout then binds
/// the uniform buffer in slot 0 and the static data in slot 4.
pub proof fn lemma_buffers_follow_config(node: NodeConfig)
    ensures
        node.spec_buffers().uniforms <==> node.uniform_size > 0,
        node.spec_buffers().static_data <==> node.static_data is Some,
        node.uniform_size > 0 <==> spec_layout(node.spec_buffers().uniforms, node.inputs, node.spec_buffers().static_data)
            .contains(Binding { slot: 0, kind: BindingKind::Uniforms }),
        node.static_data is Some <==> spec_layout(node.spec_buffers().uniforms, node.inputs, node.spec_buffers().static_data)
            .contains(Binding { slot: 4, kind: BindingKind::StaticData }),
{
    lemma_layout_holds_buffers(node.spec_buffers().uniforms, node.inputs, node.spec_buffers().static_data);
}

/// No slot appears twice in a layout: slots rise strictly from first to
/// last, and all lie in 0..=4.
pub proof fn lemma_layout_slots_distinct(has_uniforms: bool, inputs: ShaderInputs, has_static: bool)
    ensures
        forall|i: int, j: int|
            0 <= i < j < spec_layout(has_uniforms, inputs, has_static).len() ==> #[trigger] spec_layout(
                has_uniforms,
                inputs,
                has_static,
            )[i].slot < #[trigger] spec_layout(has_uniforms, inputs, has_static)[j].slot,
        forall|i: int|
            0 <= i < spec_layout(has_uniforms, inputs, has_static).len() ==> #[trigger] spec_layout(
                has_uniforms,
                inputs,
                has_static,
            )[i].slot <= 4,
{
    let l = spec_layout(has_uniforms, inputs, has_static);
    let u: Seq<Binding> = if has_uniforms {
        seq![Binding { slot: 0, kind: BindingKind::Uniforms }]
    } else {
        Seq::empty()
    };
    let t: Seq<Binding> = if inputs == ShaderInputs::Two {
        seq![Binding { slot: 3, kind: BindingKind::Texture }]
    } else {
        Seq::empty()
    };
    let st: Seq<Binding> = if has_static {
        seq![Binding { slot: 4, kind: BindingKind::StaticData }]
    } else {
        Seq::empty()
    };
    let mid = seq![
        Binding { slot: 1, kind: BindingKind::Texture },
        Binding { slot: 2, kind: BindingKind::Sampler },
    ];
    let slots = Seq::new(l.len(), |k: int| l[k].slot);
    let expected: Seq<u32> = (if has_uniforms { seq![0u32] } else { Seq::empty() }) + seq![1u32, 2u32]
        + (if inputs == ShaderInputs::Two { seq![3u32] } else { Seq::empty() })
        + (if has_static { seq![4u32] } else { Seq::empty() });
    assert(l =~= u + mid + t + st);
    assert(slots =~= expected);
    assert forall|i: int, j: int| 0 <= i < j < l.len() implies #[trigger] l[i].slot < #[trigger] l[j].slot by {
        assert(slots[i] == l[i].slot);
        assert(slots[j] == l[j].slot);
    }
    assert forall|i: int| 0 <= i < l.len() implies #[trigger] l[i].slot <= 4 by {
        assert(slots[i] == l[i].slot);
    }
}

/// The buffers a node made when it was set up: a uniform buffer, and a
/// buffer of static data.
#[derive(Debug, Clone, Copy, PartialEq, Eq, Structural)]
pub struct NodeBuffers {
    pub uniforms: bool,
    pub static_data: bool,
}

impl NodeBuffers {
    /// No buffers: a node that has not been set up.
    pub fn none() -> (buffers: NodeBuffers)
        ensures
            !buffers.uniforms,
            !buffers.static_data,
    {
        NodeBuffers { uniforms: false, static_data: false }
    }
}

/// The configuration of a shader node: a source, filter or transition that
/// runs one full-screen shader.
pub struct NodeConfig {
    /// Name of the node, from which the names of its GPU objects are made.
    pub label: String,
    /// WGSL source of the shader.
    pub shader_source: String,
    /// How many textures the shader samples.
    pub inputs: ShaderInputs,
    /// Size in bytes of the uniform buffer; 0 for none.
    pub uniform_size: u64,
    /// Whether the node computes its uniforms anew before each frame.
    pub has_uniform_updater: bool,
    /// Bytes of the static uniform data, if any.
    pub static_data: Option<Vec<u8>>,
    /// How the node's sampler treats coordinates outside the texture.
    pub address_mode: GfxAddressMode,
}

impl NodeConfig {
    /// The configuration's label, source, inputs, uniforms, static data and
    /// address mode are these.
    pub open spec fn holds(
        &self,
        label: Seq<char>,
        shader_source: Seq<char>,
        inputs: ShaderInputs,
        uniform_size: u64,
        has_uniform_updater: bool,
        static_data: Option<Seq<u8>>,
        address_mode: GfxAddressMode,
    ) -> bool {
        &&& self.label@ == label
        &&& self.shader_source@ == shader_source
        &&& self.inputs == inputs
        &&& self.uniform_size == uniform_size
        &&& self.has_uniform_updater == has_uniform_updater
        &&& match self.static_data {
            Some(d) => static_data == Some(d@),
            None => static_data is None,
        }
        &&& self.address_mode == address_mode
    }

    /// The bytes of the static data, if any.
    pub open spec fn static_bytes(&self) -> Option<Seq<u8>> {
        match self.static_data {
            Some(d) => Some(d@),
            None => None,
        }
    }

    /// Creates a node configuration with no uniforms, no static data and
    /// clamped texture addressing.
    pub fn new(label: &str, shader_source: &str, inputs: ShaderInputs) -> (node: NodeConfig)
        ensures
            node.holds(label@, shader_source@, inputs, 0, false, None, GfxAddressMode::ClampToEdge),
    {
        NodeConfig {
            label: label.to_owned(),
            shader_source: shader_source.to_owned(),
            inputs,
            uniform_size: 0,
            has_uniform_updater: false,
            static_data: None,
            address_mode: GfxAddressMode::ClampToEdge,
        }
    }

    /// Sets the static uniform data of the shader.
    pub fn with_static_data(self, data: Vec<u8>) -> (node: NodeConfig)
        ensures
            node.holds(self.label@, self.shader_source@, self.inputs, self.uniform_size,
                self.has_uniform_updater, Some(data@), self.address_mode),
    {
        NodeConfig { static_data: Some(data), ..self }
    }

    /// Gives the node uniforms of `size` bytes, computed anew before each
    /// frame.
    pub fn with_uniforms(self, size: u64) -> (node: NodeConfig)
        ensures
            node.holds(self.label@, self.shader_source@, self.inputs, size, true,
                self.static_bytes(), self.address_mode),
    {
        NodeConfig { uniform_size: size, has_uniform_updater: true, ..self }
    }

    /// Sets the size of the uniform buffer.
    pub fn with_uniform_size(self, size: u64) -> (node: NodeConfig)
        ensures
            node.holds(self.label@, self.shader_source@, self.inputs, size,
                self.has_uniform_updater, self.static_bytes(), self.address_mode),
    {
        NodeConfig { uniform_size: size, ..self }
    }

    /// Sets the texture address mode of the sampler.
    pub fn with_address_mode(self, mode: GfxAddressMode) -> (node: NodeConfig)
        ensures
            node.holds(self.label@, self.shader_source@, self.inputs, self.uniform_size,
                self.has_uniform_updater, self.static_bytes(), mode),
    {
        NodeConfig { address_mode: mode, ..self }
    }

    /// The buffers setting the node up makes: a uniform buffer of
    /// `uniform_size` bytes where that is not 0, a buffer of the static data
    /// where there is any.
    pub open spec fn spec_buffers(&self) -> NodeBuffers {
        NodeBuffers { uniforms: self.uniform_size > 0, static_data: self.static_data is Some }
    }

    /// Which buffers setting the node up makes.
    pub fn buffers(&self) -> (buffers: NodeBuffers)
        ensures
            buffers == self.spec_buffers(),
            buffers.uniforms <==> self.uniform_size > 0,
            buffers.static_data <==> self.static_data is Some,
    {
        NodeBuffers { uniforms: self.uniform_size > 0, static_data: self.static_data.is_some() }
    }

    /// The bind group layout the node creates when it is set up, next to the
    /// buffers of `buffers`.
    pub fn layout_bindings(&self) -> (bindings: Vec<Binding>)
        ensures
            bindings@ == spec_layout(self.spec_buffers().uniforms, self.inputs, self.spec_buffers().static_data),
            self.uniform_size > 0 <==> bindings@.contains(Binding { slot: 0, kind: BindingKind::Uniforms }),
            self.static_data is Some <==> bindings@.contains(Binding { slot: 4, kind: BindingKind::StaticData }),
            self.inputs == ShaderInputs::Two <==> bindings@.contains(Binding { slot: 3, kind: BindingKind::Texture }),
    {
        let buffers = self.buffers();
        let mut bindings: Vec<Binding> = Vec::new();
        if buffers.uniforms {
            bindings.push(Binding { slot: 0, kind: BindingKind::Uniforms });
        }
        bindings.push(Binding { slot: 1, kind: BindingKind::Texture });
        bindings.push(Binding { slot: 2, kind: BindingKind::Sampler });
        if self.inputs == ShaderInputs::Two {
            bindings.push(Binding { slot: 3, kind: BindingKind::Texture });
        }
        if buffers.static_data {
            bindings.push(Binding { slot: 4, kind: BindingKind::StaticData });
        }
        proof {
            assert(bindings@ =~= spec_layout(buffers.uniforms, self.inputs, buffers.static_data));
            lemma_layout_holds_buffers(self.uniform_size > 0, self.inputs, self.static_data is Some);
        }
        bindings
    }

    /// The bind group of a render with one input texture, for a node that
    /// made the buffers of `created` when it was set up: nothing for a
    /// two-input node, which renders only through `pair_bindings`; else the
    /// uniform buffer where one was made, the texture, the sampler and the
    /// static data buffer where one was made.
    pub fn pass_bindings(&self, created: NodeBuffers) -> (bindings: Option<Vec<Binding>>)
        ensures
            self.inputs == ShaderInputs::Two <==> bindings is None,
            bindings matches Some(b) ==> b@ == spec_pass_bindings(created.uniforms, created.static_data),
    {
        if self.inputs == ShaderInputs::Two {
            return None;
        }
        let mut bindings: Vec<Binding> = Vec::new();
        if created.uniforms {
            bindings.push(Binding { slot: 0, kind: BindingKind::Uniforms });
        }
        bindings.push(Binding { slot: 1, kind: BindingKind::Texture });
        bindings.push(Binding { slot: 2, kind: BindingKind::Sampler });
        if created.static_data {
            bindings.push(Binding { slot: 4, kind: BindingKind::StaticData });
        }
        proof {
            assert(bindings@ =~= spec_pass_bindings(created.uniforms, created.static_data));
        }
        Some(bindings)
    }

    /// The bind group of a render with two input textures, for a node that
    /// made the buffers of `created` when it was set up: the uniform buffer
    /// where one was made, both textures, the sampler and the static data
    /// buffer where one was made.
    pub fn pair_bindings(&self, created: NodeBuffers) -> (bindings: Vec<Binding>)
        ensures
            bindings@ == spec_layout(created.uniforms, ShaderInputs::Two, created.static_data),
    {
        let mut bindings: Vec<Binding> = Vec::new();
        if created.uniforms {
            bindings.push(Binding { slot: 0, kind: BindingKind::Uniforms });
        }
        bindings.push(Binding { slot: 1, kind: BindingKind::Texture });
        bindings.push(Binding { slot: 2, kind: BindingKind::Sampler });
        bindings.push(Binding { slot: 3, kind: BindingKind::Texture });
        if created.static_data {
            bindings.push(Binding { slot: 4, kind: BindingKind::StaticData });
        }
        proof {
            assert(bindings@ =~= spec_layout(created.uniforms, ShaderInputs::Two, created.static_data));
        }
        bindings
    }

    /// Whether an update before a frame rewrites the uniform buffer: only a
    /// node that computes its uniforms and made a buffer for them.
    pub fn writes_uniforms(&self, created: NodeBuffers) -> (writes: bool)
        ensures
            writes == (self.has_uniform_updater && created.uniforms),
    {
        self.has_uniform_updater && created.uniforms
    }
}

} // verus!
