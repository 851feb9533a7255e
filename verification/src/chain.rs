use vstd::prelude::*;

verus! {

/// A texture a pass of an effect chain reads from or draws into.
#[derive(Debug, Clone, Copy, PartialEq, Eq, Structural)]
pub enum Surface {
    /// The render target the caller handed to the chain.
    Target,
    /// The input texture the caller handed to the chain.
    Input,
    /// The chain's own 1x1 black texture, read where no input is at hand.
    Dummy,
    /// The first of the chain's two ping-pong textures.
    Ping,
    /// The second of the chain's two ping-pong textures.
    Pong,
}

/// What one processor of a chain reads and where it draws.
#[derive(Debug, Clone, Copy, PartialEq, Eq, Structural)]
pub struct PassRoute {
    pub input: Surface,
    pub output: Surface,
}

/// The final pass of an isolated chain: the group's result is alpha-blended
/// over the background into the target, which is first cleared to black if
/// `clear_target` is set.
#[derive(Debug, Clone, Copy, PartialEq, Eq, Structural)]
pub struct BlendRoute {
    pub group_result: Surface,
    pub background: Surface,
    pub target: Surface,
    pub clear_target: bool,
}

/// Where processor `i` of `n` draws. The last one draws straight into the
/// caller's target when the chain is neither isolated nor rendering to
/// itself; when rendering to itself it draws into the texture that
/// `is_even` names (`Pong` if set); every other one draws into `Ping` at
/// even positions and `Pong` at odd ones.
pub open spec fn spec_pass_output(i: int, n: int, isolated: bool, to_self: bool, is_even: bool) -> Surface {
    if i == n - 1 && !isolated && !to_self {
        Surface::Target
    } else if i == n - 1 && to_self {
        if is_even {
            Surface::Pong
        } else {
            Surface::Ping
        }
    } else if i % 2 == 0 {
        Surface::Ping
    } else {
        Surface::Pong
    }
}

/// What processor `i` reads. The first reads the caller's input, or the
/// black texture where there is none or the chain is isolated; every later
/// one reads `Pong` at even positions and `Ping` at odd ones.
pub open spec fn spec_pass_input(i: int, isolated: bool, has_input: bool) -> Surface {
    if i == 0 {
        if isolated || !has_input {
            Surface::Dummy
        } else {
            Surface::Input
        }
    } else if i % 2 == 0 {
        Surface::Pong
    } else {
        Surface::Ping
    }
}

/// The route of processor `i` of `n`.
pub open spec fn spec_pass(i: int, n: int, isolated: bool, to_self: bool, is_even: bool, has_input: bool) -> PassRoute {
    PassRoute {
        input: spec_pass_input(i, isolated, has_input),
        output: spec_pass_output(i, n, isolated, to_self, is_even),
    }
}

/// The blend of an isolated chain of `n` processors: it reads the group's
/// result from `Pong` if `n` is even, else `Ping`, and blends it over the
/// input (or black). Rendering to itself, the chain blends into the other
/// ping-pong texture (`Ping` if `is_even` is set, else `Pong`), cleared
/// first, so that the pass never samples the texture it draws into;
/// otherwise it blends into the caller's target.
pub open spec fn spec_blend(n: int, to_self: bool, is_even: bool, has_input: bool) -> BlendRoute {
    BlendRoute {
        group_result: if n % 2 == 0 {
            Surface::Pong
        } else {
            Surface::Ping
        },
        background: if has_input {
            Surface::Input
        } else {
            Surface::Dummy
        },
        target: if to_self {
            if is_even {
                Surface::Ping
            } else {
                Surface::Pong
            }
        } else {
            Surface::Target
        },
        clear_target: to_self,
    }
}

/// Where the chain's final result lands: the blend's target for an
/// isolated chain, else the last processor's output.
pub open spec fn spec_final_surface(n: int, isolated: bool, to_self: bool, is_even: bool) -> Surface {
    if isolated {
        spec_blend(n, to_self, is_even, false).target
    } else {
        spec_pass_output(n - 1, n, isolated, to_self, is_even)
    }
}

/// Computes the routes of all `n` processors, alternating between the
/// ping-pong textures as it goes.
pub fn pass_routes(n: usize, isolated: bool, to_self: bool, is_even: bool, has_input: bool) -> (routes: Vec<PassRoute>)
    ensures
        routes@.len() == n,
        forall|i: int| 0 <= i < n ==> #[trigger] routes@[i] == spec_pass(i, n as int, isolated, to_self, is_even, has_input),
{
    let mut routes: Vec<PassRoute> = Vec::new();
    let mut is_ping = true;
    let mut i: usize = 0;
    while i < n
        invariant
            i <= n,
            routes@.len() == i,
            is_ping == (i % 2 == 0),
            forall|j: int| 0 <= j < i ==> #[trigger] routes@[j] == spec_pass(j, n as int, isolated, to_self, is_even, has_input),
        decreases n - i,
    {
        let output = if i == n - 1 && !isolated && !to_self {
            Surface::Target
        } else if i == n - 1 && to_self {
            if is_even {
                Surface::Pong
            } else {
                Surface::Ping
            }
        } else if is_ping {
            Surface::Ping
        } else {
            Surface::Pong
        };
        let input = if i == 0 {
            if isolated {
                Surface::Dummy
            } else if has_input {
                Surface::Input
            } else {
                Surface::Dummy
            }
        } else if is_ping {
            Surface::Pong
        } else {
            Surface::Ping
        };
        routes.push(PassRoute { input, output });
        is_ping = !is_ping;
        i = i + 1;
    }
    routes
}

/// Computes the blend of an isolated chain of `n` processors.
pub fn blend_route(n: usize, to_self: bool, is_even: bool, has_input: bool) -> (route: BlendRoute)
    ensures
        route == spec_blend(n as int, to_self, is_even, has_input),
{
    let group_result = if n % 2 == 0 {
        Surface::Pong
    } else {
        Surface::Ping
    };
    let background = if has_input {
        Surface::Input
    } else {
        Surface::Dummy
    };
    let target = if to_self {
        if is_even {
            Surface::Ping
        } else {
            Surface::Pong
        }
    } else {
        Surface::Target
    };
    BlendRoute { group_result, background, target, clear_target: to_self }
}


/// `x`, or 1 where `x` is 0: textures are never smaller than 1x1.
pub open spec fn at_least_one(x: u32) -> u32 {
    if x == 0 {
        1
    } else {
        x
    }
}

/// The state of an effect chain that its routing decisions read: how many
/// processors it runs, the size its ping-pong textures were made for,
/// whether it is isolated, and which of its own textures exist.
#[derive(Debug, Clone, Copy, PartialEq, Eq, Structural)]
pub struct ChainState {
    /// Number of processors in the chain.
    pub processors: usize,
    /// Width the ping-pong textures were last made or resized for.
    pub width: u32,
    /// Height the ping-pong textures were last made or resized for.
    pub height: u32,
    /// Whether the chain renders into its own textures and then blends the
    /// result over its input.
    pub is_isolated: bool,
    /// Whether the ping-pong textures exist.
    pub textures_ready: bool,
    /// Whether the 1x1 black texture exists.
    pub dummy_ready: bool,
    /// Whether the last render was one of an isolated chain into its own
    /// textures, whose result the blend left in the texture other than the
    /// last processor's.
    pub blended_into_self: bool,
}

/// What a render of a chain must do, in order: (re)create the ping-pong
/// textures at `textures` size if set, create and clear the black texture
/// if `create_dummy`, clear `Ping`, run each processor along its route,
/// then the blend if there is one.
pub struct RenderPlan {
    pub textures: Option<(u32, u32)>,
    pub create_dummy: bool,
    pub passes: Vec<PassRoute>,
    pub blend: Option<BlendRoute>,
}

impl RenderPlan {
    /// The plan runs the processors of a chain of `n` along the routes for
    /// `isolated`, `to_self`, `is_even` and `has_input`, and blends exactly
    /// when the chain is isolated.
    pub open spec fn routes(&self, n: int, isolated: bool, to_self: bool, is_even: bool, has_input: bool) -> bool {
        &&& self.passes@.len() == n
        &&& forall|i: int| 0 <= i < n ==> #[trigger] self.passes@[i] == spec_pass(i, n, isolated, to_self, is_even, has_input)
        &&& self.blend == (if isolated {
            Some(spec_blend(n, to_self, is_even, has_input))
        } else {
            None::<BlendRoute>
        })
    }

    /// Where the final result of the plan lands: the blend's target, or the
    /// last pass's output.
    pub open spec fn final_surface(&self) -> Surface {
        match self.blend {
            Some(b) => b.target,
            None => self.passes@.last().output,
        }
    }
}

impl ChainState {
    /// The state after making sure the textures fit `width` x `height`.
    pub open spec fn ensured(self, width: u32, height: u32) -> ChainState {
        if self.width == width && self.height == height && self.textures_ready {
            self
        } else {
            ChainState { width, height, textures_ready: true, ..self }
        }
    }

    /// The texture size to create when making sure the textures fit
    /// `width` x `height`: none where they already do.
    pub open spec fn ensure_alloc(self, width: u32, height: u32) -> Option<(u32, u32)> {
        if self.width == width && self.height == height && self.textures_ready {
            None
        } else {
            Some((at_least_one(width), at_least_one(height)))
        }
    }

    /// Which of the chain's textures holds its last result: the black
    /// texture for an empty chain; where the blend drew, if the last render
    /// was one of an isolated chain into its own textures (`Ping` for an
    /// even number of processors, `Pong` for an odd one); else the texture
    /// the last processor draws into when it does not draw into the
    /// caller's target (`Pong` for an even number, `Ping` for an odd one).
    pub open spec fn spec_last_result(self) -> Surface {
        if self.processors == 0 {
            Surface::Dummy
        } else if (self.processors % 2 == 0) != self.blended_into_self {
            Surface::Pong
        } else {
            Surface::Ping
        }
    }

    /// The state of a new, empty chain.
    pub fn new() -> (state: ChainState)
        ensures
            state == (ChainState {
                processors: 0,
                width: 0,
                height: 0,
                is_isolated: false,
                textures_ready: false,
                dummy_ready: false,
                blended_into_self: false,
            }),
    {
        ChainState {
            processors: 0,
            width: 0,
            height: 0,
            is_isolated: false,
            textures_ready: false,
            dummy_ready: false,
            blended_into_self: false,
        }
    }

    /// Marks the chain as isolated.
    pub fn isolated(self) -> (state: ChainState)
        ensures
            state == (ChainState { is_isolated: true, ..self }),
    {
        ChainState { is_isolated: true, ..self }
    }

    /// Adds a processor at the end of the chain; the chain as it now stands
    /// has not been rendered yet.
    pub fn and(self) -> (state: ChainState)
        requires
            self.processors < usize::MAX,
        ensures
            state == (ChainState {
                processors: (self.processors + 1) as usize,
                blended_into_self: false,
                ..self
            }),
    {
        ChainState { processors: self.processors + 1, blended_into_self: false, ..self }
    }

    /// Which texture holds the last result rendered into the chain's own
    /// textures.
    pub fn last_result(&self) -> (surface: Surface)
        ensures
            surface == self.spec_last_result(),
    {
        if self.processors == 0 {
            Surface::Dummy
        } else if (self.processors % 2 == 0) != self.blended_into_self {
            Surface::Pong
        } else {
            Surface::Ping
        }
    }

    /// Makes sure the ping-pong textures fit `width` x `height`. Returns the
    /// size to (re)create them at, or `None` where they already fit; after a
    /// (re)creation every processor is to be resized to the chain's new
    /// `width` x `height`.
    pub fn ensure_textures(&mut self, width: u32, height: u32) -> (alloc: Option<(u32, u32)>)
        ensures
            *final(self) == old(self).ensured(width, height),
            alloc == old(self).ensure_alloc(width, height),
            final(self).width == width,
            final(self).height == height,
            final(self).textures_ready,
            alloc is None <==> (old(self).width == width && old(self).height == height && old(self).textures_ready),
            alloc matches Some((w, h)) ==> (width > 0 ==> w == width) && (width == 0 ==> w == 1)
                && (height > 0 ==> h == height) && (height == 0 ==> h == 1),
    {
        if self.width == width && self.height == height && self.textures_ready {
            return None;
        }
        let w = if width == 0 { 1 } else { width };
        let h = if height == 0 { 1 } else { height };
        self.textures_ready = true;
        self.width = width;
        self.height = height;
        Some((w, h))
    }

    /// Plans a render of the chain: nothing for an empty chain; else the
    /// textures are made to fit the chain's own size (at least 1x1), the
    /// black texture is made once, and the processors and blend run along
    /// the routes for `to_self`, `is_even` and `has_input`.
    pub fn plan(&mut self, to_self: bool, is_even: bool, has_input: bool) -> (plan: Option<RenderPlan>)
        ensures
            old(self).processors == 0 <==> plan is None,
            old(self).processors == 0 ==> *final(self) == *old(self),
            plan matches Some(p) ==> {
                let w = at_least_one(old(self).width);
                let h = at_least_one(old(self).height);
                &&& *final(self) == (ChainState {
                    dummy_ready: true,
                    blended_into_self: old(self).is_isolated && to_self,
                    ..old(self).ensured(w, h)
                })
                &&& p.textures == old(self).ensure_alloc(w, h)
                &&& p.create_dummy == !old(self).dummy_ready
                &&& p.routes(old(self).processors as int, old(self).is_isolated, to_self, is_even, has_input)
            },
    {
        if self.processors == 0 {
            return None;
        }
        let w = if self.width == 0 { 1 } else { self.width };
        let h = if self.height == 0 { 1 } else { self.height };
        let textures = self.ensure_textures(w, h);
        let create_dummy = !self.dummy_ready;
        self.dummy_ready = true;
        self.blended_into_self = self.is_isolated && to_self;
        let n = self.processors;
        let passes = pass_routes(n, self.is_isolated, to_self, is_even, has_input);
        let blend = if self.is_isolated {
            Some(blend_route(n, to_self, is_even, has_input))
        } else {
            None
        };
        Some(RenderPlan { textures, create_dummy, passes, blend })
    }

    /// Plans a render into the caller's target.
    pub fn plan_render(&mut self, has_input: bool) -> (plan: Option<RenderPlan>)
        ensures
            old(self).processors == 0 <==> plan is None,
            old(self).processors == 0 ==> *final(self) == *old(self),
            plan matches Some(p) ==> {
                let w = at_least_one(old(self).width);
                let h = at_least_one(old(self).height);
                &&& *final(self) == (ChainState {
                    dummy_ready: true,
                    blended_into_self: false,
                    ..old(self).ensured(w, h)
                })
                &&& p.textures == old(self).ensure_alloc(w, h)
                &&& p.create_dummy == !old(self).dummy_ready
                &&& p.routes(old(self).processors as int, old(self).is_isolated, false, false, has_input)
            },
    {
        self.plan(false, false, has_input)
    }

    /// Plans a render into the chain's own textures, the final result going
    /// to the texture `last_result` names.
    pub fn plan_render_to_self(&mut self, has_input: bool) -> (plan: Option<RenderPlan>)
        ensures
            old(self).processors == 0 <==> plan is None,
            old(self).processors == 0 ==> *final(self) == *old(self),
            plan matches Some(p) ==> {
                let w = at_least_one(old(self).width);
                let h = at_least_one(old(self).height);
                let n = old(self).processors as int;
                &&& *final(self) == (ChainState {
                    dummy_ready: true,
                    blended_into_self: old(self).is_isolated,
                    ..old(self).ensured(w, h)
                })
                &&& p.textures == old(self).ensure_alloc(w, h)
                &&& p.create_dummy == !old(self).dummy_ready
                &&& p.routes(n, old(self).is_isolated, true, n % 2 == 0, has_input)
            },
    {
        let is_even = self.processors % 2 == 0;
        self.plan(true, is_even, has_input)
    }
}


/// Each processor after the first reads exactly what the one before it drew.
pub proof fn lemma_pass_hands_off(n: int, isolated: bool, to_self: bool, is_even: bool, has_input: bool, i: int)
    requires
        0 < i < n,
    ensures
        spec_pass(i, n, isolated, to_self, is_even, has_input).input
            == spec_pass(i - 1, n, isolated, to_self, is_even, has_input).output,
{
}

/// No processor reads the texture it draws into, and none draws into the
/// caller's input or the black texture; this needs, when the chain renders
/// to itself, `is_even` to tell the parity of the number of processors, as
/// it does in `plan_render_to_self`. (`lemma_plan_never_samples_its_target`
/// says the same of whole plans, the blend included.)
pub proof fn lemma_pass_never_reads_its_output(n: int, isolated: bool, to_self: bool, is_even: bool, has_input: bool, i: int)
    requires
        0 <= i < n,
        to_self ==> is_even == (n % 2 == 0),
    ensures
        spec_pass(i, n, isolated, to_self, is_even, has_input).input
            != spec_pass(i, n, isolated, to_self, is_even, has_input).output,
        spec_pass(i, n, isolated, to_self, is_even, has_input).output != Surface::Input,
        spec_pass(i, n, isolated, to_self, is_even, has_input).output != Surface::Dummy,
{
}

/// The blend of an isolated chain reads the group's result from the texture
/// the last processor drew into, and draws into neither of the textures it
/// reads, nor into the caller's input or the black texture.
pub proof fn lemma_blend_reads_last_pass(n: int, to_self: bool, is_even: bool, has_input: bool)
    requires
        0 < n,
        to_self ==> is_even == (n % 2 == 0),
    ensures
        spec_blend(n, to_self, is_even, has_input).group_result
            == spec_pass_output(n - 1, n, true, to_self, is_even),
        spec_blend(n, to_self, is_even, has_input).target
            != spec_blend(n, to_self, is_even, has_input).group_result,
        spec_blend(n, to_self, is_even, has_input).target
            != spec_blend(n, to_self, is_even, has_input).background,
        spec_blend(n, to_self, is_even, has_input).target != Surface::Input,
        spec_blend(n, to_self, is_even, has_input).target != Surface::Dummy,
{
}

/// An isolated chain never shows the caller's input to its processors: the
/// first one reads the black texture and the rest read ping-pong textures.
pub proof fn lemma_isolated_hides_input(n: int, to_self: bool, is_even: bool, has_input: bool, i: int)
    requires
        0 <= i < n,
    ensures
        spec_pass(i, n, true, to_self, is_even, has_input).input != Surface::Input,
        i == 0 ==> spec_pass(i, n, true, to_self, is_even, has_input).input == Surface::Dummy,
{
}

/// No pass of a plan, the processors' nor the blend, samples the texture it
/// draws into, for any plan `plan_render` or `plan_render_to_self` makes.
pub proof fn lemma_plan_never_samples_its_target(p: RenderPlan, n: int, isolated: bool, to_self: bool, has_input: bool)
    requires
        0 < n,
        p.routes(n, isolated, to_self, to_self && n % 2 == 0, has_input),
    ensures
        forall|i: int| 0 <= i < n ==> #[trigger] p.passes@[i].input != p.passes@[i].output,
        p.blend matches Some(b) ==> b.target != b.group_result && b.target != b.background,
{
    assert forall|i: int| 0 <= i < n implies #[trigger] p.passes@[i].input != p.passes@[i].output by {
        lemma_pass_never_reads_its_output(n, isolated, to_self, to_self && n % 2 == 0, has_input, i);
    }
    if isolated {
        lemma_blend_reads_last_pass(n, to_self, to_self && n % 2 == 0, has_input);
    }
}

/// A plan's final result lands where `spec_final_surface` says.
pub proof fn lemma_plan_final_surface(p: RenderPlan, n: int, isolated: bool, to_self: bool, is_even: bool, has_input: bool)
    requires
        0 < n,
        p.routes(n, isolated, to_self, is_even, has_input),
    ensures
        p.final_surface() == spec_final_surface(n, isolated, to_self, is_even),
{
    assert(p.passes@.last() == p.passes@[n - 1]);
}

/// A render into the caller's target puts the chain's result there,
/// isolated or not.
pub proof fn lemma_render_lands_in_target(n: int, isolated: bool)
    requires
        0 < n,
    ensures
        spec_final_surface(n, isolated, false, false) == Surface::Target,
{
}

/// A render into the chain's own textures leaves its result in the texture
/// that `last_result` names afterwards, one of the chain's own ping-pong
/// textures and never the caller's target. (`plan_render_to_self` leaves a
/// state `s` with `s.blended_into_self == s.is_isolated`.)
pub proof fn lemma_render_to_self_lands_in_last_result(s: ChainState)
    requires
        s.processors > 0,
        s.blended_into_self == s.is_isolated,
    ensures
        spec_final_surface(s.processors as int, s.is_isolated, true, s.processors % 2 == 0)
            == s.spec_last_result(),
        s.spec_last_result() == Surface::Ping || s.spec_last_result() == Surface::Pong,
{
}

/// After a render into the caller's target (which leaves
/// `blended_into_self` unset), `last_result` of an isolated chain names the
/// texture its last processor drew into, where the group's result is.
pub proof fn lemma_render_leaves_group_result(s: ChainState, has_input: bool)
    requires
        s.processors > 0,
        s.is_isolated,
        !s.blended_into_self,
    ensures
        s.spec_last_result() == spec_pass(
            s.processors - 1,
            s.processors as int,
            true,
            false,
            false,
            has_input,
        ).output,
        s.spec_last_result() == spec_blend(s.processors as int, false, false, has_input).group_result,
{
}

/// Making the textures fit `width` x `height` records exactly that size and
/// that the textures exist; it creates them unless they exist at exactly
/// that size, and then at exactly that size, a 0 raised to 1.
pub proof fn lemma_ensure_textures_fits(s: ChainState, width: u32, height: u32)
    ensures
        s.ensured(width, height).width == width,
        s.ensured(width, height).height == height,
        s.ensured(width, height).textures_ready,
        s.ensured(width, height).processors == s.processors,
        s.ensured(width, height).is_isolated == s.is_isolated,
        s.ensure_alloc(width, height) is None <==> (s.width == width && s.height == height && s.textures_ready),
        s.ensure_alloc(width, height) matches Some((w, h)) ==> (width > 0 ==> w == width) && (width
            == 0 ==> w == 1) && (height > 0 ==> h == height) && (height == 0 ==> h == 1),
{
}

/// A size is raised to 1 only where it is 0, and left alone otherwise.
pub proof fn lemma_at_least_one(x: u32)
    ensures
        x > 0 ==> at_least_one(x) == x,
        x == 0 ==> at_least_one(x) == 1,
{
}

/// The blend puts the group's result over the caller's input whenever there
/// is one, and over black only where there is none, wherever it draws.
pub proof fn lemma_blend_background(n: int, to_self: bool, is_even: bool, has_input: bool)
    ensures
        has_input ==> spec_blend(n, to_self, is_even, has_input).background == Surface::Input,
        !has_input ==> spec_blend(n, to_self, is_even, has_input).background == Surface::Dummy,
        !to_self ==> spec_blend(n, to_self, is_even, has_input).target == Surface::Target,
        !to_self ==> !spec_blend(n, to_self, is_even, has_input).clear_target,
{
}

/// The first processor of a chain of more than one, or of an isolated one,
/// draws into `Ping`, the texture cleared at the start of each render; a
/// lone processor of a chain that is neither isolated nor rendered to
/// itself draws straight into the caller's target.
pub proof fn lemma_first_pass_draws_into_ping(n: int, isolated: bool, to_self: bool, is_even: bool, has_input: bool)
    requires
        0 < n,
        to_self ==> is_even == (n % 2 == 0),
    ensures
        (n > 1 || isolated) && !(n == 1 && to_self) ==> spec_pass(0, n, isolated, to_self, is_even, has_input).output
            == Surface::Ping,
        n == 1 && to_self ==> spec_pass(0, n, isolated, to_self, is_even, has_input).output == Surface::Ping,
        n == 1 && !isolated && !to_self ==> spec_pass(0, n, isolated, to_self, is_even, has_input).output
            == Surface::Target,
        has_input && !isolated ==> spec_pass(0, n, isolated, to_self, is_even, has_input).input == Surface::Input,
{
}

/// Making the textures fit a size twice in a row does the work once: the
/// second time changes nothing and creates nothing.
pub proof fn lemma_ensure_textures_idempotent(s: ChainState, width: u32, height: u32)
    ensures
        s.ensured(width, height).ensured(width, height) == s.ensured(width, height),
        s.ensured(width, height).ensure_alloc(width, height) is None,
{
}

} // verus!
