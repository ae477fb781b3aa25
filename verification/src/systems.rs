//! The tick pipeline's phases on one player: apply pending commands,
//! advance the playhead accumulator, and commit a requested state change.
//! The host calls them once per tick per object, in that order, with the
//! transition evaluator between the last two.

use vstd::prelude::*;
use vstd::arithmetic::div_mod::{
    lemma_div_pos_is_pos, lemma_fundamental_div_mod, lemma_fundamental_div_mod_converse,
    lemma_hoist_over_denominator, lemma_mod_bound, lemma_mod_decreases, lemma_multiply_divide_lt,
};

use crate::animation_controller::{
    find_state_index, has_state_id, lemma_state_index_of, spec_state_by_id, AnimationState,
    LottiePlayer, PlayerError,
};
use crate::composition::{Composition, Vector};
use crate::playback_settings::{
    default_playback_settings, AnimationDirection, AnimationLoopBehavior, AnimationPlayMode,
    PlaybackSettings,
};
use crate::playhead::{
    calculate_playhead, effective_end, effective_start, playable, spec_playhead, usable_len,
};

verus! {

/// One developer-issued change that must reach the active settings and
/// every state's settings override alike.
#[derive(Clone, Copy, Debug, PartialEq, Eq, Structural)]
pub enum SettingsCommand {
    SetDirection(AnimationDirection),
    SetIntermission(u64),
    SetLoopBehavior(AnimationLoopBehavior),
    SetPlayMode(AnimationPlayMode),
    SetSpeed(u32),
}

/// The settings record with one command's field written.
pub open spec fn apply_command(s: PlaybackSettings, cmd: SettingsCommand) -> PlaybackSettings {
    match cmd {
        SettingsCommand::SetDirection(d) => PlaybackSettings { direction: d, ..s },
        SettingsCommand::SetIntermission(i) => PlaybackSettings { intermission: i, ..s },
        SettingsCommand::SetLoopBehavior(l) => PlaybackSettings { looping: l, ..s },
        SettingsCommand::SetPlayMode(m) => PlaybackSettings { play_mode: m, ..s },
        SettingsCommand::SetSpeed(v) => PlaybackSettings { speed: v, ..s },
    }
}

/// A state with its settings override, if any, run through one command.
pub open spec fn state_with_command(st: AnimationState, cmd: SettingsCommand) -> AnimationState {
    AnimationState {
        playback_settings: match st.playback_settings {
            Some(o) => Some(apply_command(o, cmd)),
            None => None,
        },
        ..st
    }
}

/// The settings record with one command's field written.
fn apply_command_exec(s: PlaybackSettings, cmd: SettingsCommand) -> (r: PlaybackSettings)
    ensures
        r == apply_command(s, cmd),
{
    match cmd {
        SettingsCommand::SetDirection(d) => PlaybackSettings { direction: d, ..s },
        SettingsCommand::SetIntermission(i) => PlaybackSettings { intermission: i, ..s },
        SettingsCommand::SetLoopBehavior(l) => PlaybackSettings { looping: l, ..s },
        SettingsCommand::SetPlayMode(m) => PlaybackSettings { play_mode: m, ..s },
        SettingsCommand::SetSpeed(v) => PlaybackSettings { speed: v, ..s },
    }
}

/// Write one command into the active settings and into every state's
/// settings override, so a global change is consistent regardless of which
/// state is subsequently entered.
fn fan_out_command(
    states: &mut Vec<AnimationState>,
    settings: &mut PlaybackSettings,
    cmd: SettingsCommand,
)
    ensures
        *final(settings) == apply_command(*old(settings), cmd),
        final(states)@.len() == old(states)@.len(),
        forall|j: int|
            0 <= j < old(states)@.len() ==> final(states)@[j] == state_with_command(
                old(states)@[j],
                cmd,
            ),
{
    let n = states.len();
    let mut i: usize = 0;
    while i < n
        invariant
            n == states@.len(),
            0 <= i <= n,
            forall|j: int| 0 <= j < i ==> states@[j] == state_with_command(old(states)@[j], cmd),
            forall|j: int| i <= j < n ==> states@[j] == old(states)@[j],
        decreases n - i,
    {
        let cur = states[i].playback_settings;
        match cur {
            Some(o) => {
                let updated = apply_command_exec(o, cmd);
                states[i].playback_settings = Some(updated);
            },
            None => {},
        }
        i = i + 1;
    }
    *settings = apply_command_exec(*settings, cmd);
}

/// The settings record after an optional command.
pub open spec fn apply_opt_command(s: PlaybackSettings, cmd: Option<SettingsCommand>) -> PlaybackSettings {
    match cmd {
        Some(c) => apply_command(s, c),
        None => s,
    }
}

/// A state after an optional command reached its settings override.
pub open spec fn state_with_opt_command(st: AnimationState, cmd: Option<SettingsCommand>) -> AnimationState {
    match cmd {
        Some(c) => state_with_command(st, c),
        None => st,
    }
}

/// Write an optional command into the active settings and every override.
fn fan_out_optional(
    states: &mut Vec<AnimationState>,
    settings: &mut PlaybackSettings,
    cmd: Option<SettingsCommand>,
)
    ensures
        *final(settings) == apply_opt_command(*old(settings), cmd),
        final(states)@.len() == old(states)@.len(),
        forall|j: int|
            0 <= j < old(states)@.len() ==> final(states)@[j] == state_with_opt_command(
                old(states)@[j],
                cmd,
            ),
{
    match cmd {
        Some(c) => fan_out_command(states, settings, c),
        None => {},
    }
}

/// The pending direction change as a command.
pub open spec fn direction_command(p: LottiePlayer) -> Option<SettingsCommand> {
    match p.pending_direction {
        Some(d) => Some(SettingsCommand::SetDirection(d)),
        None => None,
    }
}

/// The pending intermission change as a command.
pub open spec fn intermission_command(p: LottiePlayer) -> Option<SettingsCommand> {
    match p.pending_intermission {
        Some(i) => Some(SettingsCommand::SetIntermission(i)),
        None => None,
    }
}

/// The pending loop behavior change as a command.
pub open spec fn loop_behavior_command(p: LottiePlayer) -> Option<SettingsCommand> {
    match p.pending_loop_behavior {
        Some(l) => Some(SettingsCommand::SetLoopBehavior(l)),
        None => None,
    }
}

/// The pending play mode change as a command.
pub open spec fn play_mode_command(p: LottiePlayer) -> Option<SettingsCommand> {
    match p.pending_play_mode {
        Some(m) => Some(SettingsCommand::SetPlayMode(m)),
        None => None,
    }
}

/// The pending speed change as a command.
pub open spec fn speed_command(p: LottiePlayer) -> Option<SettingsCommand> {
    match p.pending_speed {
        Some(v) => Some(SettingsCommand::SetSpeed(v)),
        None => None,
    }
}

/// The per-loop length the command remaps use: the composition's own frame
/// range plus the intermission. The authored segments do not enter command
/// remapping.
pub open spec fn base_loop_len(c: Composition, intermission: int) -> int {
    c.range_len() + intermission
}

/// The accumulator after a seek: the frame local to the current loop
/// iteration is replaced by the target frame folded into the composition
/// range, so loop-count bookkeeping is preserved.
pub open spec fn seek_remap(r: int, seek: int, c: Composition, intermission: int) -> int {
    r - r % base_loop_len(c, intermission) + seek % c.range_len()
}

/// The accumulator after an intermission change: already-accumulated loop
/// time is rescaled from the old per-loop length to the new one (the
/// continuous form of shifting by the loops played times the per-loop
/// delta), so the accumulator stays within the same loop iteration.
pub open spec fn intermission_rescale(r: int, old_len: int, new_len: int) -> int {
    (r * new_len) / old_len
}

/// The active settings after all pending commands are written, in the
/// order they are applied: direction, intermission, loop behavior, play
/// mode, speed.
pub open spec fn settings_after_commands(s: PlaybackSettings, p: LottiePlayer) -> PlaybackSettings {
    let s1 = apply_opt_command(s, direction_command(p));
    let s2 = apply_opt_command(s1, intermission_command(p));
    let s3 = apply_opt_command(s2, loop_behavior_command(p));
    let s4 = apply_opt_command(s3, play_mode_command(p));
    apply_opt_command(s4, speed_command(p))
}

/// A state after all pending commands reached its settings override.
pub open spec fn state_after_commands(st: AnimationState, p: LottiePlayer) -> AnimationState {
    AnimationState {
        playback_settings: match st.playback_settings {
            Some(o) => Some(settings_after_commands(o, p)),
            None => None,
        },
        ..st
    }
}

/// The accumulator after the pending intermission change and the pending
/// seek are applied, in that order. The seek folds against the new
/// intermission, since the intermission command has already been written
/// when the seek is applied.
pub open spec fn rendered_after_commands(
    r: int,
    p: LottiePlayer,
    s0: PlaybackSettings,
    c: Composition,
) -> int {
    let r1 = match p.pending_intermission {
        Some(ni) => intermission_rescale(
            r,
            base_loop_len(c, s0.intermission as int),
            base_loop_len(c, ni as int),
        ),
        None => r,
    };
    let inter2 = match p.pending_intermission {
        Some(ni) => ni as int,
        None => s0.intermission as int,
    };
    match p.pending_seek_frame {
        Some(f) => seek_remap(r1, f as int, c, inter2),
        None => r1,
    }
}

/// Apply the developer-issued pending commands to the player, the active
/// settings and every state's settings override, then clear the pending
/// slots. A pending seek and a pending intermission change remap the frame
/// accumulator instead of writing settings. A player attached to a static
/// vector graphic has no frame range to remap against, so nothing is
/// applied.
#[verifier::rlimit(100)]
pub fn apply_player_inputs(
    player: &mut LottiePlayer,
    playback_settings: &mut PlaybackSettings,
    content: &Vector,
)
    requires
        *content matches Vector::Lottie { composition } ==> {
            &&& composition.valid()
            &&& composition.range_len() + old(playback_settings).intermission <= u64::MAX
            &&& (old(player).pending_intermission matches Some(ni) ==> composition.range_len() + ni
                <= u64::MAX)
            &&& (old(player).pending_intermission matches Some(ni) ==> intermission_rescale(
                old(player).rendered_frames as int,
                base_loop_len(composition, old(playback_settings).intermission as int),
                base_loop_len(composition, ni as int),
            ) <= u64::MAX)
            &&& rendered_after_commands(
                old(player).rendered_frames as int,
                *old(player),
                *old(playback_settings),
                composition,
            ) <= u64::MAX
        },
    ensures
        *content is Svg ==> *final(player) == *old(player) && *final(playback_settings) == *old(
            playback_settings,
        ),
        *content matches Vector::Lottie { composition } ==> {
            &&& *final(playback_settings) == settings_after_commands(
                *old(playback_settings),
                *old(player),
            )
            &&& final(player).states@.len() == old(player).states@.len()
            &&& forall|j: int|
                0 <= j < old(player).states@.len() ==> final(player).states@[j]
                    == state_after_commands(old(player).states@[j], *old(player))
            &&& final(player).rendered_frames == rendered_after_commands(
                old(player).rendered_frames as int,
                *old(player),
                *old(playback_settings),
                composition,
            )
            &&& *final(player) == (LottiePlayer {
                states: final(player).states,
                rendered_frames: final(player).rendered_frames,
                pending_seek_frame: None,
                pending_direction: None,
                pending_intermission: None,
                pending_loop_behavior: None,
                pending_play_mode: None,
                pending_speed: None,
                ..*old(player)
            })
            &&& (old(player).wf() ==> final(player).wf())
        },
{
    let composition: Composition = match content {
        Vector::Svg => {
            return ;
        },
        Vector::Lottie { composition } => *composition,
    };
    let ghost p0 = *old(player);
    let ghost set0 = *old(playback_settings);

    let cmd: Option<SettingsCommand> = match player.pending_direction {
        Some(d) => Some(SettingsCommand::SetDirection(d)),
        None => None,
    };
    fan_out_optional(&mut player.states, playback_settings, cmd);
    player.pending_direction = None;
    let ghost st1 = player.states@;

    if let Some(intermission) = player.pending_intermission {
        // Rescale the already-accumulated loop time to the new per-loop
        // length, keeping the accumulator in the same loop iteration.
        let range_len: u64 = composition.frame_end - composition.frame_start;
        let old_len: u64 = range_len + playback_settings.intermission;
        let new_len: u64 = range_len + intermission;
        proof {
            assert((player.rendered_frames as int) * (new_len as int) <= (u64::MAX as int) * (
            u64::MAX as int)) by (nonlinear_arith)
                requires
                    0 <= player.rendered_frames <= u64::MAX,
                    0 <= new_len <= u64::MAX,
            ;
        }
        let scaled: u128 = ((player.rendered_frames as u128) * (new_len as u128)) / (
        old_len as u128);
        player.rendered_frames = scaled as u64;
    }
    let cmd: Option<SettingsCommand> = match player.pending_intermission {
        Some(i) => Some(SettingsCommand::SetIntermission(i)),
        None => None,
    };
    fan_out_optional(&mut player.states, playback_settings, cmd);
    player.pending_intermission = None;
    let ghost st2 = player.states@;

    let cmd: Option<SettingsCommand> = match player.pending_loop_behavior {
        Some(l) => Some(SettingsCommand::SetLoopBehavior(l)),
        None => None,
    };
    fan_out_optional(&mut player.states, playback_settings, cmd);
    player.pending_loop_behavior = None;
    let ghost st3 = player.states@;

    let cmd: Option<SettingsCommand> = match player.pending_play_mode {
        Some(m) => Some(SettingsCommand::SetPlayMode(m)),
        None => None,
    };
    fan_out_optional(&mut player.states, playback_settings, cmd);
    player.pending_play_mode = None;
    let ghost st4 = player.states@;

    if let Some(seek_frame) = player.pending_seek_frame {
        // Replace the frame local to this loop iteration by the seek
        // target folded into the composition range.
        let range_len: u64 = composition.frame_end - composition.frame_start;
        let length: u64 = range_len + playback_settings.intermission;
        let local_frame: u64 = player.rendered_frames % length;
        let local_seek_frame: u64 = seek_frame % range_len;
        proof {
            lemma_mod_decreases(player.rendered_frames as nat, length as nat);
        }
        player.rendered_frames = player.rendered_frames - local_frame + local_seek_frame;
    }
    player.pending_seek_frame = None;

    let cmd: Option<SettingsCommand> = match player.pending_speed {
        Some(v) => Some(SettingsCommand::SetSpeed(v)),
        None => None,
    };
    fan_out_optional(&mut player.states, playback_settings, cmd);
    player.pending_speed = None;
    let ghost st5 = player.states@;

    proof {
        assert(*playback_settings == settings_after_commands(set0, p0));
        assert forall|j: int| 0 <= j < p0.states@.len() implies st5[j] == state_after_commands(
            p0.states@[j],
            p0,
        ) by {
            assert(st1[j] == state_with_opt_command(p0.states@[j], direction_command(p0)));
            assert(st2[j] == state_with_opt_command(st1[j], intermission_command(p0)));
            assert(st3[j] == state_with_opt_command(st2[j], loop_behavior_command(p0)));
            assert(st4[j] == state_with_opt_command(st3[j], play_mode_command(p0)));
            assert(st5[j] == state_with_opt_command(st4[j], speed_command(p0)));
        }
    }
}

/// The frames one tick's elapsed wall-clock time contributes: the elapsed
/// milliseconds, scaled by the speed multiplier (in thousandths) and the
/// composition's frame rate, floored to whole frame units.
pub open spec fn elapsed_frames(delta_millis: u64, s: PlaybackSettings, c: Composition) -> int {
    (delta_millis as int) * (s.speed as int) * (c.frame_rate as int) / 1000000
}

/// Whether this tick advances the accumulator: the player is not stopped,
/// and is playing or about to autoplay.
pub open spec fn advancing(p: LottiePlayer, s: PlaybackSettings) -> bool {
    !p.stopped && (p.playing || (s.autoplay && !p.started))
}

/// Advance the playhead accumulator by one tick's elapsed time.
///
/// A stopped player is frozen entirely. Autoplay requests play once, the
/// first tick the player has not yet started. A paused player does not
/// advance. On a timed composition the first advancing tick records the
/// entered-at timestamp and marks the instance started; a static vector
/// graphic has no accumulator to advance, so only the flags move.
pub fn advance_playheads(
    player: &mut LottiePlayer,
    content: &Vector,
    playback_settings: &PlaybackSettings,
    now_millis: u64,
    delta_millis: u64,
)
    requires
        advancing(*old(player), *playback_settings) && (*content matches Vector::Lottie {
            composition,
        }) ==> old(player).rendered_frames + elapsed_frames(
            delta_millis,
            *playback_settings,
            content->composition,
        ) <= u64::MAX,
    ensures
        !advancing(*old(player), *playback_settings) ==> *final(player) == *old(player),
        advancing(*old(player), *playback_settings) && *content is Svg ==> *final(player) == (
        LottiePlayer { playing: true, ..*old(player) }),
        advancing(*old(player), *playback_settings) && *content is Lottie ==> *final(player) == (
        LottiePlayer {
            playing: true,
            started: if old(player).entered_at is None {
                true
            } else {
                old(player).started
            },
            entered_at: if old(player).entered_at is None {
                Some(now_millis)
            } else {
                old(player).entered_at
            },
            rendered_frames: (old(player).rendered_frames + elapsed_frames(
                delta_millis,
                *playback_settings,
                content->composition,
            )) as u64,
            ..*old(player)
        }),
{
    if player.stopped {
        return ;
    }
    // Auto play
    if playback_settings.autoplay && !player.started {
        player.playing = true;
    }
    // Return if paused
    if !player.playing {
        return ;
    }
    let composition: Composition = match content {
        Vector::Svg => {
            return ;
        },
        Vector::Lottie { composition } => *composition,
    };
    if player.entered_at.is_none() {
        player.entered_at = Some(now_millis);
        player.started = true;
    }
    // Move frames to control the playhead
    proof {
        let a = delta_millis as int;
        let b = playback_settings.speed as int;
        let c = composition.frame_rate as int;
        assert(a * b >= 0 && a * b <= (u64::MAX as int) * (u32::MAX as int)) by (nonlinear_arith)
            requires
                0 <= a <= u64::MAX as int,
                0 <= b <= u32::MAX as int,
        ;
        assert(a * b * c >= 0) by (nonlinear_arith)
            requires
                a * b >= 0,
                c >= 0,
        ;
        lemma_fundamental_div_mod(a * b * c, 1000000);
        lemma_mod_bound(a * b * c, 1000000);
    }
    let partial: u128 = (delta_millis as u128) * (playback_settings.speed as u128);
    let scaled: u128 = partial * (composition.frame_rate as u128);
    let elapsed_whole_frames: u64 = (scaled / 1000000) as u64;
    player.rendered_frames = player.rendered_frames + elapsed_whole_frames;
}

/// A seek lands exactly at the target frame within the current loop
/// iteration: the remapped accumulator is non-negative, its frame local to
/// the loop is the folded seek target, and the loop count is preserved.
pub proof fn lemma_seek_remap_props(r: int, seek: int, c: Composition, intermission: int)
    requires
        c.valid(),
        intermission >= 0,
        r >= 0,
        seek >= 0,
    ensures
        0 <= seek_remap(r, seek, c, intermission),
        seek_remap(r, seek, c, intermission) % base_loop_len(c, intermission) == seek
            % c.range_len(),
        seek_remap(r, seek, c, intermission) / base_loop_len(c, intermission) == r / base_loop_len(
            c,
            intermission,
        ),
{
    let ll = base_loop_len(c, intermission);
    let rl = c.range_len();
    let q = r / ll;
    lemma_fundamental_div_mod(r, ll);
    lemma_mod_bound(r, ll);
    lemma_mod_bound(seek, rl);
    let s2 = seek % rl;
    let remapped = seek_remap(r, seek, c, intermission);
    assert(remapped == q * ll + s2) by (nonlinear_arith)
        requires
            r == ll * q + r % ll,
            remapped == r - r % ll + s2,
    ;
    assert(q * ll >= 0) by (nonlinear_arith)
        requires
            q >= 0,
            ll >= 1,
    ;
    lemma_fundamental_div_mod_converse(remapped, ll, q, s2);
}

/// Applying the same seek twice with no time advance between leaves the
/// accumulator where the first application put it.
pub proof fn lemma_seek_idempotent(r: int, seek: int, c: Composition, intermission: int)
    requires
        c.valid(),
        intermission >= 0,
        r >= 0,
        seek >= 0,
    ensures
        seek_remap(seek_remap(r, seek, c, intermission), seek, c, intermission) == seek_remap(
            r,
            seek,
            c,
            intermission,
        ),
{
    lemma_seek_remap_props(r, seek, c, intermission);
}

/// Rescaling the accumulator from one per-loop length to another keeps it
/// within the same loop iteration: the loop count is preserved exactly.
pub proof fn lemma_intermission_rescale_preserves_loop(r: int, old_len: int, new_len: int)
    requires
        r >= 0,
        old_len >= 1,
        new_len >= 1,
    ensures
        0 <= intermission_rescale(r, old_len, new_len),
        intermission_rescale(r, old_len, new_len) / new_len == r / old_len,
{
    let q = r / old_len;
    let s = r % old_len;
    lemma_fundamental_div_mod(r, old_len);
    lemma_mod_bound(r, old_len);
    assert(r * new_len == s * new_len + (q * new_len) * old_len) by (nonlinear_arith)
        requires
            r == old_len * q + s,
    ;
    lemma_hoist_over_denominator(s * new_len, q * new_len, old_len as nat);
    let t = (s * new_len) / old_len;
    assert(intermission_rescale(r, old_len, new_len) == q * new_len + t);
    assert(s * new_len >= 0 && s * new_len < old_len * new_len) by (nonlinear_arith)
        requires
            0 <= s < old_len,
            new_len >= 1,
    ;
    lemma_div_pos_is_pos(s * new_len, old_len);
    lemma_multiply_divide_lt(s * new_len, old_len, new_len);
    assert(q * new_len >= 0) by (nonlinear_arith)
        requires
            q >= 0,
            new_len >= 1,
    ;
    lemma_fundamental_div_mod_converse(q * new_len + t, new_len, q, t);
}

/// Round trip: committing a transition from forward to reverse playback
/// and immediately back, with no time advance between, restores the
/// original playhead exactly, when the usable range starts at frame zero.
///
/// The one family of inputs left out: under a looping policy with zero
/// intermission and the playhead exactly at the range start, the reversed
/// accumulator equals one whole loop and folds to zero, which reads as the
/// range's last frame instead.
pub proof fn lemma_direction_round_trip(r: int, c: Composition, s: PlaybackSettings)
    requires
        playable(c, s),
        s.direction == AnimationDirection::Normal,
        effective_start(c, s) == 0,
        r >= 0,
        s.intermission > 0 || spec_playhead(r, c, s) > 0 || s.looping
            == AnimationLoopBehavior::NoLoop,
    ensures
        ({
            let s_rev = PlaybackSettings { direction: AnimationDirection::Reverse, ..s };
            let p = spec_playhead(r, c, s);
            let r2 = direction_remap(r, c, s, AnimationDirection::Reverse);
            let p2 = spec_playhead(r2, c, s_rev);
            let r3 = direction_remap(r2, c, s_rev, AnimationDirection::Normal);
            &&& p2 == p
            &&& r3 == p
            &&& spec_playhead(r3, c, s) == p
        }),
{
    let s_rev = PlaybackSettings { direction: AnimationDirection::Reverse, ..s };
    let en = effective_end(c, s);
    let ul = usable_len(c, s);
    let ll = crate::playhead::loop_len(c, s);
    let p = spec_playhead(r, c, s);
    crate::playhead::lemma_playhead_in_range(r, c, s);
    let r2 = en - p;
    assert(1 <= r2 <= ul);
    // The reversed accumulator folds to itself: it is below one loop pass
    // (or, without looping, capped at one).
    match s.looping {
        AnimationLoopBehavior::NoLoop => {},
        AnimationLoopBehavior::Amount(n) => {
            assert(r2 < ll);
            assert(n * ll >= ll) by (nonlinear_arith)
                requires
                    n >= 1,
                    ll >= 1,
            ;
            lemma_fundamental_div_mod_converse(r2, ll, 0, r2);
        },
        AnimationLoopBehavior::Loop => {
            assert(r2 < ll);
            lemma_fundamental_div_mod_converse(r2, ll, 0, r2);
        },
    }
    // Folding the restored accumulator, which is the playhead itself, is
    // also the identity.
    match s.looping {
        AnimationLoopBehavior::NoLoop => {},
        AnimationLoopBehavior::Amount(n) => {
            assert(n * ll >= ll) by (nonlinear_arith)
                requires
                    n >= 1,
                    ll >= 1,
            ;
            lemma_fundamental_div_mod_converse(p, ll, 0, p);
        },
        AnimationLoopBehavior::Loop => {
            lemma_fundamental_div_mod_converse(p, ll, 0, p);
        },
    }
}

/// The direction of the settings a state installs on entry.
pub open spec fn target_direction(st: AnimationState) -> AnimationDirection {
    match st.playback_settings {
        Some(pb) => pb.direction,
        None => AnimationDirection::Normal,
    }
}

/// The accumulator a commit carries into the entered state when neither
/// reset flag asks for a hard reset: the outgoing playhead is computed
/// with the settings in effect on exit, then remapped by the direction
/// pair so the visible frame does not jump.
pub open spec fn direction_remap(
    r: int,
    c: Composition,
    s_exit: PlaybackSettings,
    in_dir: AnimationDirection,
) -> int {
    match (s_exit.direction, in_dir) {
        (AnimationDirection::Normal, AnimationDirection::Reverse) => effective_end(c, s_exit)
            - spec_playhead(r, c, s_exit),
        (AnimationDirection::Reverse, AnimationDirection::Normal) => spec_playhead(r, c, s_exit),
        _ => r % usable_len(c, s_exit),
    }
}

/// The accumulator after a commit: zero on a hard reset, the
/// direction-correct remap otherwise; a static vector graphic has no
/// accumulator to remap.
pub open spec fn commit_rendered(
    r: int,
    content: Vector,
    s_exit: PlaybackSettings,
    cur: AnimationState,
    target: AnimationState,
) -> int {
    match content {
        Vector::Svg => r,
        Vector::Lottie { composition } => if cur.reset_playhead_on_transition
            || target.reset_playhead_on_start {
            0
        } else {
            direction_remap(r, composition, s_exit, target_direction(target))
        },
    }
}

/// Commit a requested state change.
///
/// With no request pending this is a no-op returning `Ok(false)`. A
/// request naming an unregistered state is refused with
/// `Err(PlayerError::StateNotFound)` and changes nothing. Otherwise the
/// started/playing flags are cleared, the entered-at marker is reset, the
/// accumulator is hard-reset or remapped direction-correctly, the target's
/// settings override (or the fixed default) fully replaces the active
/// settings, and the target becomes current; the result says whether the
/// host must swap its asset handle to the new current state's asset.
pub fn set_state(
    player: &mut LottiePlayer,
    playback_settings: &mut PlaybackSettings,
    content: &Vector,
) -> (r: Result<bool, PlayerError>)
    requires
        old(player).wf(),
        old(player).next_state is Some ==> old(player).has_current_state(),
        old(player).next_state is Some && *content is Lottie ==> playable(
            content->composition,
            *old(playback_settings),
        ),
    ensures
        old(player).next_state is None ==> r == Ok::<bool, PlayerError>(false) && *final(player)
            == *old(player) && *final(playback_settings) == *old(playback_settings),
        (old(player).next_state matches Some(ns) && !has_state_id(old(player).states@, ns@)) ==> r
            == Err::<bool, PlayerError>(PlayerError::StateNotFound) && *final(player) == *old(
            player,
        ) && *final(playback_settings) == *old(playback_settings),
        (old(player).next_state matches Some(ns) && has_state_id(old(player).states@, ns@)) ==> ({
            let ns = old(player).next_state->0;
            let target = spec_state_by_id(old(player).states@, ns@);
            let cur = old(player).spec_state();
            &&& r == Ok::<bool, PlayerError>(cur.asset != target.asset)
            &&& *final(playback_settings) == (match target.playback_settings {
                Some(pb) => pb,
                None => default_playback_settings(),
            })
            &&& final(player).current_state == ns
            &&& final(player).rendered_frames == commit_rendered(
                old(player).rendered_frames as int,
                *content,
                *old(playback_settings),
                cur,
                target,
            )
            &&& *final(player) == (LottiePlayer {
                current_state: final(player).current_state,
                next_state: None,
                started: false,
                playing: false,
                entered_at: None,
                rendered_frames: final(player).rendered_frames,
                ..*old(player)
            })
        }),
{
    let next_state: String = match &player.next_state {
        None => {
            return Ok(false);
        },
        Some(ns) => ns.clone(),
    };
    let target_idx: usize = match find_state_index(&player.states, &next_state) {
        Some(i) => i,
        None => {
            return Err(PlayerError::StateNotFound);
        },
    };
    proof {
        lemma_state_index_of(player.states@, next_state@, target_idx as int);
    }
    let current_idx: usize = match find_state_index(&player.states, &player.current_state) {
        Some(i) => i,
        None => {
            proof {
                let w = choose|i: int|
                    0 <= i < player.states@.len() && player.states@[i].id@
                        == player.current_state@;
                assert(player.states@[w].id@ == player.current_state@);
            }
            0
        },
    };
    proof {
        lemma_state_index_of(player.states@, player.current_state@, current_idx as int);
    }
    player.started = false;
    player.playing = false;
    let swapped = player.states[current_idx].asset != player.states[target_idx].asset;
    player.entered_at = None;
    match content {
        Vector::Svg => {},
        Vector::Lottie { composition } => {
            if player.states[current_idx].reset_playhead_on_transition
                || player.states[target_idx].reset_playhead_on_start {
                player.rendered_frames = 0;
            } else {
                let playhead = calculate_playhead(
                    player.rendered_frames,
                    composition,
                    playback_settings,
                );
                // The commit must resume at a direction-correct frame;
                // this depends on the outgoing and incoming directions.
                let current_direction = playback_settings.direction;
                let incoming = match &player.states[target_idx].playback_settings {
                    Some(pb) => pb.direction,
                    None => AnimationDirection::Normal,
                };
                match (current_direction, incoming) {
                    (AnimationDirection::Normal, AnimationDirection::Reverse) => {
                        let end_frame: u64 = if playback_settings.segments_end
                            < composition.frame_end {
                            playback_settings.segments_end
                        } else {
                            composition.frame_end
                        };
                        player.rendered_frames = end_frame - playhead;
                    },
                    (AnimationDirection::Reverse, AnimationDirection::Normal) => {
                        player.rendered_frames = playhead;
                    },
                    _ => {
                        let start_frame: u64 = if playback_settings.segments_start
                            > composition.frame_start {
                            playback_settings.segments_start
                        } else {
                            composition.frame_start
                        };
                        let end_frame: u64 = if playback_settings.segments_end
                            < composition.frame_end {
                            playback_settings.segments_end
                        } else {
                            composition.frame_end
                        };
                        let usable: u64 = end_frame - start_frame;
                        player.rendered_frames = player.rendered_frames % usable;
                    },
                }
            }
        },
    }
    *playback_settings = match &player.states[target_idx].playback_settings {
        Some(pb) => *pb,
        None => PlaybackSettings::default(),
    };
    player.current_state = next_state;
    player.next_state = None;
    Ok(swapped)
}

} // verus!
