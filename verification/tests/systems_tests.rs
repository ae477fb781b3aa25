use lottie_player::animation_controller::{AnimationState, LottiePlayer};
use lottie_player::composition::{Composition, Vector};
use lottie_player::playback_settings::{
    AnimationDirection, AnimationLoopBehavior, AnimationPlayMode, PlaybackSettings,
};
use lottie_player::systems::{advance_playheads, apply_player_inputs};

fn content() -> Vector {
    Vector::Lottie { composition: Composition { frame_start: 0, frame_end: 100, frame_rate: 30 } }
}

fn player_with_overrides() -> LottiePlayer {
    LottiePlayer::new("a")
        .with_state(
            AnimationState::new("a").with_playback_settings(PlaybackSettings::default()),
        )
        .with_state(AnimationState::new("b"))
}

#[test]
fn direction_command_fans_out_to_overrides_and_active() {
    let mut player = player_with_overrides();
    let mut settings = PlaybackSettings::default();
    player.set_direction(AnimationDirection::Reverse);
    apply_player_inputs(&mut player, &mut settings, &content());
    assert_eq!(settings.direction, AnimationDirection::Reverse);
    for state in player.states().iter() {
        if let Some(o) = state.playback_settings {
            assert_eq!(o.direction, AnimationDirection::Reverse);
        }
    }
    assert!(player.pending_direction.is_none());
}

#[test]
fn speed_loop_and_play_mode_commands_fan_out() {
    let mut player = player_with_overrides();
    let mut settings = PlaybackSettings::default();
    player.set_speed(2500);
    player.set_loop_behavior(AnimationLoopBehavior::Amount(3));
    player.set_play_mode(AnimationPlayMode::PingPong);
    apply_player_inputs(&mut player, &mut settings, &content());
    assert_eq!(settings.speed, 2500);
    assert_eq!(settings.looping, AnimationLoopBehavior::Amount(3));
    assert_eq!(settings.play_mode, AnimationPlayMode::PingPong);
    let o = player.states()[0].playback_settings.unwrap();
    assert_eq!(o.speed, 2500);
    assert_eq!(o.looping, AnimationLoopBehavior::Amount(3));
    assert_eq!(o.play_mode, AnimationPlayMode::PingPong);
    assert!(player.pending_speed.is_none());
    assert!(player.pending_loop_behavior.is_none());
    assert!(player.pending_play_mode.is_none());
}

#[test]
fn seek_remaps_within_current_loop() {
    // rendered_frames 230 is 30 frames into its third loop; seeking to 70
    // keeps the loop count and moves the local frame.
    let mut player = player_with_overrides();
    let mut settings = PlaybackSettings::default();
    player.rendered_frames = 230;
    player.seek(70);
    apply_player_inputs(&mut player, &mut settings, &content());
    assert_eq!(player.rendered_frames, 270);
    assert!(player.pending_seek_frame.is_none());
}

#[test]
fn seek_target_is_folded_into_the_range() {
    let mut player = player_with_overrides();
    let mut settings = PlaybackSettings::default();
    player.rendered_frames = 30;
    player.seek(250);
    apply_player_inputs(&mut player, &mut settings, &content());
    assert_eq!(player.rendered_frames, 50);
}

#[test]
fn seek_twice_is_idempotent() {
    let mut player = player_with_overrides();
    let mut settings = PlaybackSettings::default();
    player.rendered_frames = 523;
    player.seek(70);
    apply_player_inputs(&mut player, &mut settings, &content());
    let once = player.rendered_frames;
    player.seek(70);
    apply_player_inputs(&mut player, &mut settings, &content());
    assert_eq!(player.rendered_frames, once);
}

#[test]
fn intermission_change_rescales_accumulated_loops() {
    // Two and a half loops of length 100 become two and a half loops of
    // length 110: the loop count is preserved.
    let mut player = player_with_overrides();
    let mut settings = PlaybackSettings::default();
    player.rendered_frames = 250;
    player.set_intermission(10);
    apply_player_inputs(&mut player, &mut settings, &content());
    assert_eq!(player.rendered_frames, 275);
    assert_eq!(settings.intermission, 10);
    assert_eq!(player.states()[0].playback_settings.unwrap().intermission, 10);
    assert_eq!(player.rendered_frames / 110, 2);
    assert!(player.pending_intermission.is_none());
}

#[test]
fn commands_are_ignored_for_svg_content() {
    let mut player = player_with_overrides();
    let mut settings = PlaybackSettings::default();
    player.set_speed(2500);
    apply_player_inputs(&mut player, &mut settings, &Vector::Svg);
    assert_eq!(settings.speed, 1000);
    assert_eq!(player.pending_speed, Some(2500));
}

#[test]
fn advance_accumulates_frames_with_speed_and_rate() {
    let mut player = player_with_overrides();
    player.playing = true;
    // One second at double speed and 30 frames per second: 60 frames.
    let settings = PlaybackSettings { speed: 2000, ..PlaybackSettings::default() };
    advance_playheads(&mut player, &content(), &settings, 7000, 1000);
    assert_eq!(player.rendered_frames, 60);
    assert_eq!(player.entered_at, Some(7000));
    assert!(player.started);
}

#[test]
fn advance_floors_partial_frames() {
    let mut player = player_with_overrides();
    player.playing = true;
    // 50 ms at real time and 30 frames per second is 1.5 frames: floored.
    let settings = PlaybackSettings::default();
    advance_playheads(&mut player, &content(), &settings, 0, 50);
    assert_eq!(player.rendered_frames, 1);
}

#[test]
fn advance_autoplay_starts_playback_once() {
    let mut player = player_with_overrides();
    assert!(!player.playing);
    let settings = PlaybackSettings::default();
    advance_playheads(&mut player, &content(), &settings, 0, 100);
    assert!(player.playing);
    assert!(player.started);
}

#[test]
fn advance_respects_pause_and_stop() {
    let settings = PlaybackSettings { autoplay: false, ..PlaybackSettings::default() };
    let mut player = player_with_overrides();
    advance_playheads(&mut player, &content(), &settings, 0, 1000);
    assert_eq!(player.rendered_frames, 0);
    assert!(player.entered_at.is_none());

    let mut player = player_with_overrides();
    player.playing = true;
    player.stopped = true;
    advance_playheads(&mut player, &content(), &settings, 0, 1000);
    assert_eq!(player.rendered_frames, 0);
    assert!(!player.started);
}

#[test]
fn advance_on_svg_moves_flags_only() {
    let mut player = player_with_overrides();
    let settings = PlaybackSettings::default();
    advance_playheads(&mut player, &Vector::Svg, &settings, 0, 1000);
    assert!(player.playing);
    assert_eq!(player.rendered_frames, 0);
    assert!(player.entered_at.is_none());
}

#[test]
fn advance_keeps_existing_entered_at_marker() {
    let mut player = player_with_overrides();
    player.playing = true;
    player.entered_at = Some(3);
    player.started = true;
    let settings = PlaybackSettings::default();
    advance_playheads(&mut player, &content(), &settings, 9999, 100);
    assert_eq!(player.entered_at, Some(3));
    assert_eq!(player.rendered_frames, 3);
}
