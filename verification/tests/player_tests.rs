use lottie_player::animation_controller::{
    AnimationState, AnimationTransition, LottiePlayer, PlayerError,
};
use lottie_player::composition::{Composition, Vector};
use lottie_player::playback_settings::{
    AnimationDirection, AnimationLoopBehavior, AnimationPlayMode, PlaybackSettings,
};
use lottie_player::systems::set_state;

fn content() -> Vector {
    Vector::Lottie { composition: Composition { frame_start: 0, frame_end: 100, frame_rate: 30 } }
}

#[test]
fn new_player_queues_initial_state() {
    let player = LottiePlayer::new("idle");
    assert_eq!(player.initial_state, "idle");
    assert_eq!(player.current_state, "idle");
    assert_eq!(player.next_state.as_deref(), Some("idle"));
    assert!(!player.started);
    assert!(!player.playing);
    assert!(!player.stopped);
    assert_eq!(player.rendered_frames, 0);
    assert!(player.entered_at.is_none());
    assert!(!player.hovered);
}

#[test]
fn builders_fill_state_fields() {
    let state = AnimationState::new("hover")
        .with_asset(7)
        .with_playback_settings(PlaybackSettings {
            direction: AnimationDirection::Reverse,
            ..PlaybackSettings::default()
        })
        .with_transition(AnimationTransition::OnMouseLeave { state: "idle".to_owned() })
        .reset_playhead_on_transition(true)
        .reset_playhead_on_start(false);
    assert_eq!(state.id, "hover");
    assert_eq!(state.asset, 7);
    assert_eq!(
        state.playback_settings.unwrap().direction,
        AnimationDirection::Reverse
    );
    assert_eq!(state.transitions.len(), 1);
    assert!(state.reset_playhead_on_transition);
    assert!(!state.reset_playhead_on_start);
}

#[test]
fn with_state_replaces_same_id() {
    let player = LottiePlayer::new("a")
        .with_state(AnimationState::new("a").with_asset(1))
        .with_state(AnimationState::new("b").with_asset(2))
        .with_state(AnimationState::new("a").with_asset(3));
    assert_eq!(player.states().len(), 2);
    assert_eq!(player.state().asset, 3);
}

#[test]
fn control_flags() {
    let mut player = LottiePlayer::new("a");
    player.play();
    assert!(player.playing && !player.stopped);
    player.pause();
    assert!(!player.playing);
    player.stop();
    assert!(player.stopped);
    player.toggle_play();
    assert!(player.playing && !player.stopped);
    player.toggle_play();
    assert!(!player.playing);
}

#[test]
fn commands_are_queued_until_applied() {
    let mut player = LottiePlayer::new("a");
    player.seek(12);
    player.set_direction(AnimationDirection::Reverse);
    player.set_intermission(5);
    player.set_loop_behavior(AnimationLoopBehavior::NoLoop);
    player.set_play_mode(AnimationPlayMode::PingPong);
    player.set_speed(500);
    assert_eq!(player.pending_seek_frame, Some(12));
    assert_eq!(player.pending_direction, Some(AnimationDirection::Reverse));
    assert_eq!(player.pending_intermission, Some(5));
    assert_eq!(player.pending_loop_behavior, Some(AnimationLoopBehavior::NoLoop));
    assert_eq!(player.pending_play_mode, Some(AnimationPlayMode::PingPong));
    assert_eq!(player.pending_speed, Some(500));
}

#[test]
fn transition_and_reset_request_states() {
    let mut player = LottiePlayer::new("a");
    player.transition("b");
    assert_eq!(player.next_state.as_deref(), Some("b"));
    player.reset();
    assert_eq!(player.next_state.as_deref(), Some("a"));
}

#[test]
fn set_state_unknown_target_is_refused() {
    let mut player = LottiePlayer::new("a").with_state(AnimationState::new("a"));
    let mut settings = PlaybackSettings::default();
    player.transition("missing");
    let r = set_state(&mut player, &mut settings, &content());
    assert_eq!(r, Err(PlayerError::StateNotFound));
    // Nothing changed; the request is still pending.
    assert_eq!(player.next_state.as_deref(), Some("missing"));
    assert_eq!(player.current_state, "a");
}

#[test]
fn set_state_without_request_is_a_no_op() {
    let mut player = LottiePlayer::new("a").with_state(AnimationState::new("a"));
    player.next_state = None;
    player.playing = true;
    let mut settings = PlaybackSettings::default();
    let r = set_state(&mut player, &mut settings, &content());
    assert_eq!(r, Ok(false));
    assert!(player.playing);
}

#[test]
fn set_state_installs_override_or_default() {
    let override_settings = PlaybackSettings {
        speed: 2000,
        direction: AnimationDirection::Reverse,
        ..PlaybackSettings::default()
    };
    let mut player = LottiePlayer::new("a")
        .with_state(AnimationState::new("a").with_asset(1))
        .with_state(
            AnimationState::new("b").with_asset(2).with_playback_settings(override_settings),
        );
    let mut settings = PlaybackSettings::default();
    player.next_state = Some("b".to_owned());
    let r = set_state(&mut player, &mut settings, &content());
    // The asset differs, so the host must swap its handle.
    assert_eq!(r, Ok(true));
    assert_eq!(settings, override_settings);
    assert_eq!(player.current_state, "b");
    assert!(player.next_state.is_none());
    assert!(!player.started && !player.playing);
    assert!(player.entered_at.is_none());

    // Going back to a state without an override restores the default.
    player.transition("a");
    settings.direction = AnimationDirection::Normal;
    let r = set_state(&mut player, &mut settings, &content());
    assert_eq!(r, Ok(true));
    assert_eq!(settings, PlaybackSettings::default());
}

#[test]
fn set_state_hard_reset_flags_zero_the_accumulator() {
    let mut player = LottiePlayer::new("a")
        .with_state(AnimationState::new("a"))
        .with_state(AnimationState::new("b").reset_playhead_on_start(true));
    let mut settings = PlaybackSettings::default();
    player.rendered_frames = 42;
    player.next_state = Some("b".to_owned());
    let r = set_state(&mut player, &mut settings, &content());
    assert_eq!(r, Ok(false));
    assert_eq!(player.rendered_frames, 0);
}

#[test]
fn set_state_normal_to_reverse_keeps_visible_frame() {
    // State A plays forward, state B in reverse, no reset flags: at
    // rendered_frames 30 in a [0,100) range the commit carries 70 over
    // (end minus playhead), so the visible frame is unchanged.
    let reverse_settings = PlaybackSettings {
        direction: AnimationDirection::Reverse,
        ..PlaybackSettings::default()
    };
    let mut player = LottiePlayer::new("a")
        .with_state(AnimationState::new("a"))
        .with_state(AnimationState::new("b").with_playback_settings(reverse_settings));
    let mut settings = PlaybackSettings::default();
    player.rendered_frames = 30;
    player.next_state = Some("b".to_owned());
    set_state(&mut player, &mut settings, &content()).unwrap();
    assert_eq!(player.rendered_frames, 70);
    assert_eq!(settings.direction, AnimationDirection::Reverse);
    // The frame shown by B equals the frame A was showing.
    let comp = Composition { frame_start: 0, frame_end: 100, frame_rate: 30 };
    assert_eq!(
        lottie_player::playhead::calculate_playhead(player.rendered_frames, &comp, &settings),
        30
    );
}

#[test]
fn set_state_round_trip_restores_playhead() {
    // Normal -> Reverse -> Normal with no time advance restores the
    // original playhead exactly.
    let reverse_settings = PlaybackSettings {
        direction: AnimationDirection::Reverse,
        ..PlaybackSettings::default()
    };
    let mut player = LottiePlayer::new("a")
        .with_state(AnimationState::new("a"))
        .with_state(AnimationState::new("b").with_playback_settings(reverse_settings));
    let mut settings = PlaybackSettings::default();
    let comp = Composition { frame_start: 0, frame_end: 100, frame_rate: 30 };
    for r in [1u64, 30, 77, 99, 130] {
        player.current_state = "a".to_owned();
        player.rendered_frames = r;
        settings = PlaybackSettings::default();
        let before = lottie_player::playhead::calculate_playhead(r, &comp, &settings);
        player.next_state = Some("b".to_owned());
        set_state(&mut player, &mut settings, &content()).unwrap();
        player.next_state = Some("a".to_owned());
        set_state(&mut player, &mut settings, &content()).unwrap();
        let after =
            lottie_player::playhead::calculate_playhead(player.rendered_frames, &comp, &settings);
        assert_eq!(after, before);
    }
}

#[test]
fn set_state_same_direction_refolds_accumulator() {
    let mut player = LottiePlayer::new("a")
        .with_state(AnimationState::new("a"))
        .with_state(AnimationState::new("b"));
    let mut settings = PlaybackSettings::default();
    player.rendered_frames = 230;
    player.next_state = Some("b".to_owned());
    set_state(&mut player, &mut settings, &content()).unwrap();
    assert_eq!(player.rendered_frames, 30);
}

#[test]
fn set_state_on_svg_resets_marker_only() {
    let mut player = LottiePlayer::new("a")
        .with_state(AnimationState::new("a"))
        .with_state(AnimationState::new("b"));
    let mut settings = PlaybackSettings::default();
    player.rendered_frames = 17;
    player.entered_at = Some(5);
    player.next_state = Some("b".to_owned());
    set_state(&mut player, &mut settings, &Vector::Svg).unwrap();
    assert_eq!(player.rendered_frames, 17);
    assert!(player.entered_at.is_none());
    assert_eq!(player.current_state, "b");
}
