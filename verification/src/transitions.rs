//! The transition predicate evaluator: scans the current state's rules in
//! declaration order and requests the first satisfied one.

use vstd::prelude::*;

use crate::animation_controller::{
    find_state_index, lemma_state_index_of, AnimationTransition, LottiePlayer,
};
use crate::composition::Vector;
use crate::playback_settings::PlaybackSettings;
use crate::playhead::{playable, usable_len};

verus! {

/// The per-tick input snapshot, sampled once by the host before any player
/// is processed: whether the pointer is inside the object's bounds,
/// whether the primary button was just pressed this tick, and the host
/// clock in milliseconds.
#[derive(Clone, Copy, Debug, PartialEq, Eq, Structural)]
pub struct TransitionInputs {
    pub pointer_inside: bool,
    pub pointer_just_pressed: bool,
    pub now_millis: u64,
}

/// Everything a single rule's predicate may read, fixed for the duration
/// of one tick's scan (the hover latch, which evolves during the scan, is
/// threaded separately).
#[derive(Clone, Copy, Debug, PartialEq, Eq, Structural)]
pub struct EvalContext {
    pub inside: bool,
    pub just_pressed: bool,
    pub now_millis: u64,
    pub entered_at: Option<u64>,
    pub completed: bool,
}

/// One full pass, intermission included, has elapsed. Never satisfied for
/// a static vector graphic, which has no frame range: a completion rule on
/// one is a configuration error and is treated as never satisfied.
pub open spec fn on_complete_satisfied(rendered: int, content: Vector, s: PlaybackSettings) -> bool {
    match content {
        Vector::Svg => false,
        Vector::Lottie { composition } => rendered >= usable_len(composition, s) + s.intermission,
    }
}

/// The context a tick presents to the scan, assembled from the player, the
/// active content and the sampled inputs.
pub open spec fn eval_context(
    p: LottiePlayer,
    content: Vector,
    s: PlaybackSettings,
    inputs: TransitionInputs,
) -> EvalContext {
    EvalContext {
        inside: inputs.pointer_inside,
        just_pressed: inputs.pointer_just_pressed,
        now_millis: inputs.now_millis,
        entered_at: p.entered_at,
        completed: on_complete_satisfied(p.rendered_frames as int, content, s),
    }
}

/// Whether one rule's predicate is satisfied, given the hover latch as it
/// stands when the scan reaches the rule.
pub open spec fn rule_fires(t: AnimationTransition, ctx: EvalContext, hovered: bool) -> bool {
    match t {
        AnimationTransition::OnAfter { state, millis } => ctx.entered_at matches Some(e)
            && ctx.now_millis > e + millis,
        AnimationTransition::OnComplete { .. } => ctx.completed,
        AnimationTransition::OnMouseEnter { .. } => ctx.inside,
        AnimationTransition::OnMouseClick { .. } => ctx.inside && ctx.just_pressed,
        AnimationTransition::OnMouseLeave { .. } => hovered && !ctx.inside,
        AnimationTransition::OnShow { .. } => ctx.entered_at is Some,
    }
}

/// What one scan of a rule list produces: the id of the requested state if
/// some rule fired, the hover latch as the scan left it, and whether the
/// rule that fired was a pointer-leave rule.
pub ghost struct ScanOutcome {
    pub fired: Option<Seq<char>>,
    pub hovered: bool,
    pub fired_leave: bool,
}

/// Scan the rules in declaration order; the first satisfied rule wins and
/// the rest are not evaluated. A pointer-leave rule latches the hover flag
/// while the pointer is inside, and clears it exactly when it fires.
pub open spec fn scan_transitions(
    ts: Seq<AnimationTransition>,
    hovered: bool,
    ctx: EvalContext,
) -> ScanOutcome
    decreases ts.len(),
{
    if ts.len() == 0 {
        ScanOutcome { fired: None, hovered, fired_leave: false }
    } else if rule_fires(ts[0], ctx, hovered) {
        ScanOutcome {
            fired: Some(ts[0].target()),
            hovered: if ts[0] is OnMouseLeave {
                false
            } else {
                hovered
            },
            fired_leave: ts[0] is OnMouseLeave,
        }
    } else {
        let h2 = if ts[0] is OnMouseLeave && ctx.inside {
            true
        } else {
            hovered
        };
        scan_transitions(ts.drop_first(), h2, ctx)
    }
}

/// First-match-wins: a state whose rules begin with a pointer-enter rule
/// followed by a pointer-click rule requests the enter rule's target when
/// the pointer is inside and just clicked in the same tick, never the
/// click rule's.
pub proof fn lemma_enter_precedes_click(
    ts: Seq<AnimationTransition>,
    hovered: bool,
    ctx: EvalContext,
)
    requires
        ts.len() >= 2,
        ts[0] is OnMouseEnter,
        ts[1] is OnMouseClick,
        ctx.inside,
        ctx.just_pressed,
    ensures
        scan_transitions(ts, hovered, ctx).fired == Some(ts[0].target()),
{
}

/// A pointer-leave rule fires only on the edge from previously-inside to
/// currently-outside — never on the tick the pointer first enters — and
/// firing clears the hover latch.
pub proof fn lemma_leave_fires_only_after_hover(
    ts: Seq<AnimationTransition>,
    hovered: bool,
    ctx: EvalContext,
)
    ensures
        scan_transitions(ts, hovered, ctx).fired_leave ==> hovered && !ctx.inside,
        scan_transitions(ts, hovered, ctx).fired_leave ==> !scan_transitions(
            ts,
            hovered,
            ctx,
        ).hovered,
    decreases ts.len(),
{
    if ts.len() == 0 {
    } else if rule_fires(ts[0], ctx, hovered) {
    } else {
        let h2 = if ts[0] is OnMouseLeave && ctx.inside {
            true
        } else {
            hovered
        };
        lemma_leave_fires_only_after_hover(ts.drop_first(), h2, ctx);
    }
}

/// While the pointer stays outside and the hover latch is clear, a
/// pointer-leave rule cannot fire again and the latch stays clear: a leave
/// rule fires exactly once per enter/leave cycle.
pub proof fn lemma_leave_fires_once_per_cycle(ts: Seq<AnimationTransition>, ctx: EvalContext)
    requires
        !ctx.inside,
    ensures
        !scan_transitions(ts, false, ctx).fired_leave,
        !scan_transitions(ts, false, ctx).hovered,
    decreases ts.len(),
{
    if ts.len() == 0 {
    } else if rule_fires(ts[0], ctx, false) {
    } else {
        lemma_leave_fires_once_per_cycle(ts.drop_first(), ctx);
    }
}

/// Evaluate the current state's transition rules and request at most one
/// state change.
///
/// A stopped player runs no state machine: nothing changes. Otherwise the
/// rules of the current state are scanned in declaration order against the
/// sampled inputs; if one fires, its target is requested (replacing any
/// earlier request) and the scan stops. Only the requested next state and
/// the hover latch change.
pub fn run_transitions(
    player: &mut LottiePlayer,
    content: &Vector,
    playback_settings: &PlaybackSettings,
    inputs: TransitionInputs,
)
    requires
        old(player).wf(),
        !old(player).stopped ==> old(player).has_current_state(),
        !old(player).stopped && (*content matches Vector::Lottie { composition }) ==> playable(
            content->composition,
            *playback_settings,
        ),
    ensures
        old(player).stopped ==> *final(player) == *old(player),
        !old(player).stopped ==> ({
            let out = scan_transitions(
                old(player).spec_state().transitions@,
                old(player).hovered,
                eval_context(*old(player), *content, *playback_settings, inputs),
            );
            &&& final(player).hovered == out.hovered
            &&& (out.fired matches Some(t) ==> final(player).next_state matches Some(s) && s@ == t)
            &&& (out.fired is None ==> final(player).next_state == old(player).next_state)
            &&& *final(player) == (LottiePlayer {
                next_state: final(player).next_state,
                hovered: final(player).hovered,
                ..*old(player)
            })
        }),
{
    if player.stopped {
        return ;
    }
    let completed: bool = match content {
        Vector::Svg => false,
        Vector::Lottie { composition } => {
            let start_frame: u64 = if playback_settings.segments_start > composition.frame_start {
                playback_settings.segments_start
            } else {
                composition.frame_start
            };
            let end_frame: u64 = if playback_settings.segments_end < composition.frame_end {
                playback_settings.segments_end
            } else {
                composition.frame_end
            };
            let usable: u64 = end_frame - start_frame;
            player.rendered_frames >= usable + playback_settings.intermission
        },
    };
    let ghost ctx = eval_context(*player, *content, *playback_settings, inputs);
    assert(ctx.completed == completed);

    let found = find_state_index(&player.states, &player.current_state);
    let idx: usize = match found {
        Some(i) => i,
        None => {
            proof {
                let w = choose|i: int|
                    0 <= i < player.states@.len() && player.states@[i].id@
                        == player.current_state@;
                assert(player.states@[w].id@ == player.current_state@);
            }
            0
        },
    };
    proof {
        lemma_state_index_of(player.states@, player.current_state@, idx as int);
    }
    let ghost ts = player.states@[idx as int].transitions@;
    let ghost h0 = player.hovered;
    let n = player.states[idx].transitions.len();
    proof {
        assert(ts.skip(0) =~= ts);
    }
    let mut i: usize = 0;
    while i < n
        invariant
            idx < player.states@.len(),
            ts == player.states@[idx as int].transitions@,
            n == ts.len(),
            0 <= i <= n,
            !old(player).stopped,
            *player == (LottiePlayer { hovered: player.hovered, ..*old(player) }),
            scan_transitions(ts.skip(i as int), player.hovered, ctx) == scan_transitions(
                ts,
                h0,
                ctx,
            ),
            h0 == old(player).hovered,
            ts == old(player).spec_state().transitions@,
            ctx == eval_context(*old(player), *content, *playback_settings, inputs),
            completed == ctx.completed,
        decreases n - i,
    {
        let ghost cur_h = player.hovered;
        let mut is_leave = false;
        let mut fire_target: Option<String> = None;
        let tr = &player.states[idx].transitions[i];
        proof {
            assert(*tr == ts[i as int]);
            assert(ts.skip(i as int)[0] == ts[i as int]);
        }
        match tr {
            AnimationTransition::OnAfter { state, millis } => {
                let fire = match player.entered_at {
                    Some(e) => inputs.now_millis > *millis && inputs.now_millis - *millis > e,
                    None => false,
                };
                proof {
                    assert(fire == rule_fires(ts[i as int], ctx, cur_h));
                }
                if fire {
                    fire_target = Some(state.clone());
                }
            },
            AnimationTransition::OnComplete { state } => {
                if completed {
                    fire_target = Some(state.clone());
                }
            },
            AnimationTransition::OnMouseEnter { state } => {
                if inputs.pointer_inside {
                    fire_target = Some(state.clone());
                }
            },
            AnimationTransition::OnMouseClick { state } => {
                if inputs.pointer_inside && inputs.pointer_just_pressed {
                    fire_target = Some(state.clone());
                }
            },
            AnimationTransition::OnMouseLeave { state } => {
                is_leave = true;
                if player.hovered && !inputs.pointer_inside {
                    fire_target = Some(state.clone());
                }
            },
            AnimationTransition::OnShow { state } => {
                if player.entered_at.is_some() {
                    fire_target = Some(state.clone());
                }
            },
        }
        proof {
            assert(fire_target is Some <==> rule_fires(ts[i as int], ctx, cur_h));
            assert(fire_target matches Some(t) ==> t@ == ts[i as int].target());
            assert(is_leave == (ts[i as int] is OnMouseLeave));
        }
        match fire_target {
            Some(t) => {
                player.next_state = Some(t);
                if is_leave {
                    player.hovered = false;
                }
                return ;
            },
            None => {
                if is_leave && inputs.pointer_inside {
                    player.hovered = true;
                }
                proof {
                    assert(ts.skip(i as int).drop_first() =~= ts.skip(i as int + 1));
                }
            },
        }
        i = i + 1;
    }
    proof {
        assert(ts.skip(n as int) =~= Seq::<AnimationTransition>::empty());
    }
}

} // verus!
