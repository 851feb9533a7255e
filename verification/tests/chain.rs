use infinitegfx_core::chain::{pass_routes, BlendRoute, ChainState, PassRoute, Surface};

fn route(input: Surface, output: Surface) -> PassRoute {
    PassRoute { input, output }
}

fn chain_of(n: usize) -> ChainState {
    let mut state = ChainState::new();
    for _ in 0..n {
        state = state.and();
    }
    state
}

#[test]
fn new_chain_is_empty() {
    let state = ChainState::new();
    assert_eq!(state.processors, 0);
    assert_eq!(state.width, 0);
    assert_eq!(state.height, 0);
    assert!(!state.is_isolated);
    assert!(!state.textures_ready);
    assert!(!state.dummy_ready);
    assert!(!state.blended_into_self);
    assert!(state.isolated().is_isolated);
}

#[test]
fn last_result_follows_parity() {
    assert_eq!(chain_of(0).last_result(), Surface::Dummy);
    assert_eq!(chain_of(1).last_result(), Surface::Ping);
    assert_eq!(chain_of(2).last_result(), Surface::Pong);
    assert_eq!(chain_of(3).last_result(), Surface::Ping);
    assert_eq!(chain_of(0).isolated().last_result(), Surface::Dummy);
    assert_eq!(chain_of(1).isolated().last_result(), Surface::Ping);
    assert_eq!(chain_of(2).isolated().last_result(), Surface::Pong);
}

#[test]
fn last_result_follows_the_last_render() {
    for n in 1..6 {
        let mut state = chain_of(n).isolated();
        let plan = state.plan_render(true).unwrap();
        assert!(!state.blended_into_self);
        assert_eq!(state.last_result(), plan.passes[n - 1].output);
        assert_eq!(state.last_result(), plan.blend.unwrap().group_result);

        let self_plan = state.plan_render_to_self(true).unwrap();
        assert!(state.blended_into_self);
        assert_eq!(state.last_result(), self_plan.blend.unwrap().target);
        assert_ne!(state.last_result(), self_plan.passes[n - 1].output);

        state.plan_render(false);
        assert_eq!(state.last_result(), plan.passes[n - 1].output);

        state.plan_render_to_self(false);
        let grown = state.and();
        assert!(!grown.blended_into_self);
        let parity = if (n + 1) % 2 == 0 { Surface::Pong } else { Surface::Ping };
        assert_eq!(grown.last_result(), parity);
    }
    let mut plain = chain_of(3);
    plain.plan_render_to_self(false);
    assert!(!plain.blended_into_self);
    assert_eq!(plain.last_result(), Surface::Ping);
}

#[test]
fn empty_chain_plans_nothing() {
    let mut state = ChainState::new();
    assert!(state.plan_render(true).is_none());
    assert!(state.plan_render_to_self(false).is_none());
    assert_eq!(state, ChainState::new());
}

#[test]
fn render_three_processors_into_target() {
    let mut state = chain_of(3);
    let plan = state.plan_render(true).unwrap();
    assert_eq!(plan.textures, Some((1, 1)));
    assert!(plan.create_dummy);
    assert_eq!(
        plan.passes,
        vec![
            route(Surface::Input, Surface::Ping),
            route(Surface::Ping, Surface::Pong),
            route(Surface::Pong, Surface::Target),
        ]
    );
    assert!(plan.blend.is_none());
    assert!(state.textures_ready && state.dummy_ready);
    assert_eq!((state.width, state.height), (1, 1));

    let again = state.plan_render(false).unwrap();
    assert_eq!(again.textures, None);
    assert!(!again.create_dummy);
    assert_eq!(again.passes[0], route(Surface::Dummy, Surface::Ping));
}

#[test]
fn isolated_render_blends_over_input() {
    let mut state = chain_of(2).isolated();
    let plan = state.plan_render(true).unwrap();
    assert_eq!(
        plan.passes,
        vec![route(Surface::Dummy, Surface::Ping), route(Surface::Ping, Surface::Pong)]
    );
    assert_eq!(
        plan.blend,
        Some(BlendRoute {
            group_result: Surface::Pong,
            background: Surface::Input,
            target: Surface::Target,
            clear_target: false,
        })
    );
}

#[test]
fn isolated_render_to_self_blends_into_other_texture() {
    for n in 1..6 {
        let mut state = chain_of(n).isolated();
        let plan = state.plan_render_to_self(false).unwrap();
        let blend = plan.blend.unwrap();
        assert_eq!(blend.group_result, plan.passes[n - 1].output);
        assert_ne!(blend.target, blend.group_result);
        assert_ne!(blend.target, blend.background);
        assert!(blend.clear_target);
        assert_eq!(blend.background, Surface::Dummy);
        assert_eq!(blend.target, state.last_result());
        let expected = if n % 2 == 0 { Surface::Ping } else { Surface::Pong };
        assert_eq!(blend.target, expected);
    }
}

#[test]
fn render_to_self_lands_in_last_result() {
    for n in 1..6 {
        for isolated in [false, true] {
            let mut state = chain_of(n);
            if isolated {
                state = state.isolated();
            }
            let plan = state.plan_render_to_self(true).unwrap();
            let landed = match plan.blend {
                Some(b) => b.target,
                None => plan.passes.last().unwrap().output,
            };
            assert_eq!(landed, state.last_result(), "n = {}, isolated = {}", n, isolated);
            assert_eq!(plan.textures, Some((1, 1)));
        }
    }
}

#[test]
fn passes_hand_off_and_never_read_their_output() {
    for n in 1..8 {
        for isolated in [false, true] {
            for has_input in [false, true] {
                let mut state = chain_of(n);
                if isolated {
                    state = state.isolated();
                }
                let mut other = state;
                let plan = state.plan_render(has_input).unwrap();
                let self_plan = other.plan_render_to_self(has_input).unwrap();
                for passes in [&plan.passes, &self_plan.passes] {
                    for i in 0..n {
                        assert_ne!(passes[i].input, passes[i].output);
                        assert_ne!(passes[i].output, Surface::Input);
                        if i > 0 {
                            assert_eq!(passes[i].input, passes[i - 1].output);
                        }
                        if isolated {
                            assert_ne!(passes[i].input, Surface::Input);
                        }
                    }
                }
                if let Some(b) = plan.blend {
                    assert_eq!(b.group_result, plan.passes[n - 1].output);
                    assert_eq!(b.target, Surface::Target);
                    assert!(!b.clear_target);
                }
                if let Some(b) = self_plan.blend {
                    assert_eq!(b.group_result, self_plan.passes[n - 1].output);
                    assert_ne!(b.target, b.group_result);
                    assert_ne!(b.target, b.background);
                }
            }
        }
    }
}

#[test]
fn pass_routes_with_odd_final_parity() {
    let routes = pass_routes(4, false, true, true, false);
    assert_eq!(
        routes,
        vec![
            route(Surface::Dummy, Surface::Ping),
            route(Surface::Ping, Surface::Pong),
            route(Surface::Pong, Surface::Ping),
            route(Surface::Ping, Surface::Pong),
        ]
    );
}

#[test]
fn ensure_textures_reallocates_only_on_change() {
    let mut state = ChainState::new();
    assert_eq!(state.ensure_textures(800, 600), Some((800, 600)));
    assert_eq!((state.width, state.height), (800, 600));
    assert_eq!(state.ensure_textures(800, 600), None);
    assert_eq!(state.ensure_textures(0, 600), Some((1, 600)));
    assert_eq!((state.width, state.height), (0, 600));
    assert_eq!(state.ensure_textures(0, 600), None);
    let mut sized = chain_of(1);
    sized.ensure_textures(640, 480);
    let plan = sized.plan_render(false).unwrap();
    assert_eq!(plan.textures, None);
}
