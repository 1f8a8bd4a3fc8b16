use robo::fighter::FacingDirection;
use robo::input::player::{push_front_bounded, AVATAR_DASH, AVATAR_HEAVY, AVATAR_JUMP, AVATAR_LIGHT};
use robo::input::{Action, AxisDir, FighterControllerPlayer, MovementFrame, QueuedAction};
use std::collections::VecDeque;

fn frame(v: AxisDir, h: AxisDir) -> MovementFrame {
    MovementFrame { vertical: v, horizontal: h }
}

#[test]
fn new_player_controller_has_scene_defaults() {
    let p = FighterControllerPlayer::new();
    assert_eq!(p.get_movement_buffer_len(), 12);
    assert_eq!(p.attack_light_buffer_len, 12);
    assert_eq!(p.attack_heavy_buffer_len, 12);
    assert_eq!(p.dash_buffer_len, 6);
    assert_eq!(p.jump_buffer_len, 6);
    assert_eq!(p.fastfall_window, 1);
    assert_eq!(p.current_horizontal(), AxisDir::Neutral);
    assert_eq!(p.peek_action(), None);
}

#[test]
fn bounded_push_drops_the_oldest() {
    let mut b: VecDeque<u8> = VecDeque::new();
    push_front_bounded(&mut b, 1, 2);
    push_front_bounded(&mut b, 2, 2);
    push_front_bounded(&mut b, 3, 2);
    assert_eq!(b, VecDeque::from(vec![3, 2]));
    let mut z: VecDeque<u8> = VecDeque::new();
    push_front_bounded(&mut z, 1, 0);
    assert!(z.is_empty());
}

#[test]
fn history_never_exceeds_its_length() {
    let mut p = FighterControllerPlayer::new();
    p.set_movement_buffer_len(3);
    for _ in 0..10 {
        p.physics_process(Some(frame(AxisDir::Neutral, AxisDir::Positive)), None, false);
        assert!(p.movement_buffer.len() <= 3);
    }
    assert_eq!(p.movement_buffer.len(), 3);
    p.set_movement_buffer_len(1);
    assert_eq!(p.movement_buffer.len(), 1);
    assert_eq!(p.get_movement_buffer_len(), 1);
}

#[test]
fn resting_stick_records_a_neutral_frame() {
    let mut p = FighterControllerPlayer::new();
    p.physics_process(Some(frame(AxisDir::Neutral, AxisDir::Negative)), None, false);
    assert_eq!(p.current_horizontal(), AxisDir::Negative);
    p.physics_process(None, None, false);
    assert_eq!(p.current_horizontal(), AxisDir::Neutral);
    assert_eq!(p.movement_buffer[1], frame(AxisDir::Neutral, AxisDir::Negative));
}

#[test]
fn queued_action_expires_after_its_buffer_length() {
    let mut p = FighterControllerPlayer::new();
    p.physics_process(None, Some(Action::Jump), true);
    assert!(p.maintaining_jump);
    assert_eq!(p.peek_action(), Some(Action::Jump));
    for k in 1..6 {
        p.physics_process(None, None, false);
        assert_eq!(p.action, Some(QueuedAction { kind: Action::Jump, age: k }));
    }
    p.physics_process(None, None, false);
    assert_eq!(p.peek_action(), None);
    assert!(!p.maintaining_jump);
}

#[test]
fn new_press_replaces_the_queued_action() {
    let mut p = FighterControllerPlayer::new();
    p.physics_process(None, Some(Action::AttackLight), false);
    p.physics_process(None, Some(Action::Dash), false);
    assert_eq!(p.action, Some(QueuedAction { kind: Action::Dash, age: 0 }));
}

#[test]
fn consuming_takes_the_action_away() {
    let mut p = FighterControllerPlayer::new();
    p.physics_process(None, Some(Action::AttackHeavy), false);
    assert_eq!(p.consume_action(), Some(Action::AttackHeavy));
    assert_eq!(p.peek_action(), None);
    assert_eq!(p.consume_action(), None);
}

#[test]
fn fastfall_needs_a_fresh_flick_down() {
    let mut p = FighterControllerPlayer::new();
    p.physics_process(Some(frame(AxisDir::Negative, AxisDir::Neutral)), None, false);
    // only one frame of history: nothing before the flick
    assert!(!p.wants_fastfall());
    let mut p = FighterControllerPlayer::new();
    p.physics_process(None, None, false);
    p.physics_process(Some(frame(AxisDir::Negative, AxisDir::Neutral)), None, false);
    assert!(p.wants_fastfall());
    // held down for longer than the window: no longer a flick
    p.physics_process(Some(frame(AxisDir::Negative, AxisDir::Neutral)), None, false);
    assert!(!p.wants_fastfall());
    // diagonal down is not a fastfall
    p.physics_process(Some(frame(AxisDir::Negative, AxisDir::Positive)), None, false);
    assert!(!p.wants_fastfall());
}

#[test]
fn dash_is_held_while_the_stick_points_its_way() {
    let mut p = FighterControllerPlayer::new();
    p.physics_process(Some(frame(AxisDir::Neutral, AxisDir::Positive)), None, false);
    assert!(p.should_maintain_dash(FacingDirection::Right));
    assert!(!p.should_maintain_dash(FacingDirection::Left));
    p.physics_process(Some(frame(AxisDir::Neutral, AxisDir::Negative)), None, false);
    assert!(p.should_maintain_dash(FacingDirection::Left));
    p.physics_process(None, None, false);
    assert!(!p.should_maintain_dash(FacingDirection::Left));
}

#[test]
fn queued_actions_capture_their_inputs() {
    assert_eq!(QueuedAction::input_name(Action::AttackLight), AVATAR_LIGHT);
    assert_eq!(QueuedAction::input_name(Action::AttackHeavy), AVATAR_HEAVY);
    assert_eq!(QueuedAction::input_name(Action::Dash), AVATAR_DASH);
    assert_eq!(QueuedAction::input_name(Action::Jump), "avatar_jump");
    assert_eq!(AVATAR_JUMP, "avatar_jump");
    assert_eq!(
        QueuedAction::capture(Action::Dash, true),
        Some(QueuedAction { kind: Action::Dash, age: 0 })
    );
    assert_eq!(QueuedAction::capture(Action::Dash, false), None);
}
