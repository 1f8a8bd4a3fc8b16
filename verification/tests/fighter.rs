use robo::attack::Attack2D;
use robo::fighter::{
    Anim, AnimationState, Command, FacingDirection, Fighter2D, FighterState, Next, Query, Reply,
    Resume, SlideResult,
};
use robo::input::{
    Action, AiSenses, AxisDir, FighterControllerAi, FighterControllerPlayer, MovementFrame,
    NoController, QueuedAction,
};

fn still() -> AnimationState {
    AnimationState { cancellable: false, anim_finished: false }
}

fn landed() -> Reply {
    Reply::Slid(SlideResult { collided: true, on_floor: true })
}

fn airborne() -> Reply {
    Reply::Slid(SlideResult { collided: false, on_floor: false })
}

fn player_holding(h: AxisDir, action: Option<Action>) -> FighterControllerPlayer {
    let mut p = FighterControllerPlayer::new();
    p.physics_process(
        Some(MovementFrame { vertical: AxisDir::Neutral, horizontal: h }),
        action,
        false,
    );
    p
}

#[test]
fn new_fighter_has_scene_defaults() {
    let f = Fighter2D::new();
    assert_eq!(f.max_health, 1000);
    assert_eq!(f.air_jump_count, 1);
    assert_eq!(f.ground_dash_frames, 24);
    assert_eq!(f.airdash_frames, 12);
    assert_eq!(f.state, FighterState::Init);
    assert_eq!(f.facing, FacingDirection::Right);
    assert_eq!(f.resume, Resume::Idle);
}

#[test]
fn entering_the_tree_fills_health() {
    let mut f = Fighter2D::new();
    f.enter_tree();
    assert_eq!(f.current_health, 1000);
}

#[test]
fn first_frame_falls_and_lands() {
    let mut f = Fighter2D::new();
    let mut c = NoController;
    let s = f.resume(&mut c, still(), Reply::Nothing);
    assert_eq!(s.commands, vec![Command::PlayAnim(Anim::Fall)]);
    assert_eq!(s.next, Next::Continue);
    assert_eq!(f.state, FighterState::Falling);
    let s = f.resume(&mut c, still(), Reply::Nothing);
    assert_eq!(
        s.commands,
        vec![Command::WalkInputPreserving(AxisDir::Neutral), Command::Gravity]
    );
    assert_eq!(s.next, Next::Ask(Query::Slide));
    let s = f.resume(&mut c, still(), landed());
    assert_eq!(
        s.commands,
        vec![Command::StopMotion, Command::PlayAnim(Anim::Idle), Command::AirDamping]
    );
    assert_eq!(s.next, Next::Done);
    assert_eq!(f.state, FighterState::Stand);
    assert_eq!(f.jumps_remaining, 1);
    assert_eq!(f.resume, Resume::Idle);
}

#[test]
fn falling_without_floor_keeps_falling() {
    let mut f = Fighter2D::new();
    f.state = FighterState::Falling;
    let mut c = NoController;
    let s = f.resume(&mut c, still(), Reply::Nothing);
    assert_eq!(s.next, Next::Ask(Query::Slide));
    let s = f.resume(&mut c, still(), airborne());
    assert_eq!(s.commands, vec![Command::AirDamping]);
    assert_eq!(s.next, Next::Done);
    assert_eq!(f.state, FighterState::Falling);
}

#[test]
fn standing_jump_takes_the_queued_action() {
    let mut f = Fighter2D::new();
    f.state = FighterState::Stand;
    let mut p = player_holding(AxisDir::Neutral, Some(Action::Jump));
    let s = f.resume(&mut p, still(), Reply::Nothing);
    assert_eq!(s.commands, vec![Command::PlayAnim(Anim::Jump), Command::JumpImpulse]);
    assert_eq!(s.next, Next::Continue);
    assert_eq!(f.state, FighterState::Jumping);
    assert_eq!(p.peek_action(), None);
    let s = f.resume(&mut p, still(), Reply::Nothing);
    assert_eq!(s.commands, vec![Command::Gravity]);
    assert_eq!(s.next, Next::Ask(Query::Descending));
    // still rising, jump not held: the jump is cut short
    let s = f.resume(&mut p, still(), Reply::Flag(false));
    assert_eq!(
        s.commands,
        vec![
            Command::WalkInputPreserving(AxisDir::Neutral),
            Command::MoveAndSlide,
            Command::AirDamping,
            Command::PlayAnim(Anim::Fall),
        ]
    );
    assert_eq!(s.next, Next::Done);
    assert_eq!(f.state, FighterState::Falling);
}

#[test]
fn standing_with_input_starts_walking() {
    let mut f = Fighter2D::new();
    f.state = FighterState::Stand;
    let mut p = player_holding(AxisDir::Negative, None);
    let s = f.resume(&mut p, still(), Reply::Nothing);
    assert_eq!(s.commands, vec![Command::PlayAnim(Anim::Run)]);
    assert_eq!(f.state, FighterState::Walk);
    let s = f.resume(&mut p, still(), Reply::Nothing);
    assert_eq!(
        s.commands,
        vec![
            Command::Face(FacingDirection::Left),
            Command::WalkInput(AxisDir::Negative),
            Command::HaltVertical,
            Command::MoveAndSlide,
        ]
    );
    assert_eq!(s.next, Next::Done);
    assert_eq!(f.facing, FacingDirection::Left);
}

#[test]
fn air_jump_spends_one_air_jump_and_landing_restores_them() {
    let mut f = Fighter2D::new();
    f.state = FighterState::Falling;
    f.jumps_remaining = 1;
    let mut p = player_holding(AxisDir::Neutral, Some(Action::Jump));
    let s = f.resume(&mut p, still(), Reply::Nothing);
    assert_eq!(s.commands, vec![Command::AirJumpImpulse, Command::PlayAnim(Anim::Jump)]);
    assert_eq!(f.state, FighterState::AirJump);
    assert_eq!(f.jumps_remaining, 0);
    // a second jump is refused without air jumps left
    let mut f2 = Fighter2D::new();
    f2.state = FighterState::Falling;
    f2.jumps_remaining = 0;
    let mut p2 = player_holding(AxisDir::Neutral, Some(Action::Jump));
    let s = f2.resume(&mut p2, still(), Reply::Nothing);
    assert_eq!(s.next, Next::Ask(Query::Slide));
    assert_eq!(p2.peek_action(), Some(Action::Jump));
    let s = f2.resume(&mut p2, still(), landed());
    assert_eq!(s.next, Next::Done);
    assert_eq!(f2.state, FighterState::Stand);
    assert_eq!(f2.jumps_remaining, 1);
}

#[test]
fn ground_dash_let_go_stands_in_the_same_frame() {
    let mut f = Fighter2D::new();
    f.state = FighterState::Walk;
    f.jumps_remaining = 1;
    f.iframes_remaining = 3;
    let mut p = player_holding(AxisDir::Positive, Some(Action::Dash));
    let s = f.resume(&mut p, still(), Reply::Nothing);
    assert_eq!(
        s.commands,
        vec![
            Command::Face(FacingDirection::Right),
            Command::DashImpulse { facing: FacingDirection::Right, airborne: false },
            Command::PlayAnim(Anim::Dash),
        ]
    );
    assert_eq!(s.next, Next::Continue);
    assert_eq!(f.state, FighterState::GroundDash);
    assert_eq!(f.dash_frames_remaining, 24);
    // the stick now rests: the dash is let go, and the frame goes on standing
    p.physics_process(None, None, false);
    let s = f.resume(&mut p, still(), Reply::Nothing);
    assert_eq!(s.commands, vec![Command::StopMotion, Command::PlayAnim(Anim::Idle)]);
    assert_eq!(s.next, Next::Continue);
    assert_eq!(f.dash_frames_remaining, 23);
    assert_eq!(f.iframes_remaining, 3);
    assert_eq!(f.state, FighterState::Stand);
    assert_eq!(f.resume, Resume::Process(FighterState::Stand));
    let s = f.resume(&mut p, still(), Reply::Nothing);
    assert_eq!(s.next, Next::Done);
    assert_eq!(f.iframes_remaining, 2);
    assert_eq!(f.resume, Resume::Idle);
}

#[test]
fn held_ground_dash_runs_until_slowed() {
    let mut f = Fighter2D::new();
    f.state = FighterState::GroundDash;
    f.dash_frames_remaining = 5;
    let mut p = player_holding(AxisDir::Positive, None);
    let s = f.resume(&mut p, still(), Reply::Nothing);
    assert_eq!(s.commands, vec![Command::DashDamping]);
    assert_eq!(s.next, Next::Ask(Query::Slide));
    let s = f.resume(&mut p, still(), landed());
    assert_eq!(s.next, Next::Ask(Query::DashSlowed));
    let s = f.resume(&mut p, still(), Reply::Flag(false));
    assert_eq!(s.next, Next::Done);
    assert_eq!(f.state, FighterState::GroundDash);
    assert_eq!(f.dash_frames_remaining, 4);
    let s = f.resume(&mut p, still(), Reply::Nothing);
    assert_eq!(s.next, Next::Ask(Query::Slide));
    let s = f.resume(&mut p, still(), landed());
    assert_eq!(s.next, Next::Ask(Query::DashSlowed));
    let s = f.resume(&mut p, still(), Reply::Flag(true));
    assert_eq!(s.commands, vec![Command::PlayAnim(Anim::Run)]);
    assert_eq!(f.state, FighterState::Walk);
}

#[test]
fn air_dash_ends_when_its_frames_run_out() {
    let mut f = Fighter2D::new();
    f.state = FighterState::AirDash;
    f.dash_frames_remaining = 1;
    let mut p = player_holding(AxisDir::Positive, None);
    let s = f.resume(&mut p, still(), Reply::Nothing);
    assert_eq!(s.next, Next::Ask(Query::Slide));
    assert_eq!(f.dash_frames_remaining, 0);
    let s = f.resume(&mut p, still(), airborne());
    assert_eq!(s.commands, vec![Command::PlayAnim(Anim::Fall)]);
    assert_eq!(f.state, FighterState::Falling);
}

#[test]
fn air_dash_from_a_fall_spends_an_air_jump_and_an_airdash() {
    let mut f = Fighter2D::new();
    f.state = FighterState::Falling;
    f.jumps_remaining = 1;
    f.airdashes_remaining = 1;
    f.facing = FacingDirection::Left;
    let mut p = player_holding(AxisDir::Positive, Some(Action::Dash));
    let s = f.resume(&mut p, still(), Reply::Nothing);
    assert_eq!(
        s.commands,
        vec![
            Command::Face(FacingDirection::Right),
            Command::DashImpulse { facing: FacingDirection::Right, airborne: true },
            Command::PlayAnim(Anim::Dash),
        ]
    );
    assert_eq!(f.state, FighterState::AirDash);
    assert_eq!(f.airdashes_remaining, 0);
    assert_eq!(f.jumps_remaining, 0);
    assert_eq!(f.dash_frames_remaining, 12);
    assert_eq!(p.peek_action(), None);
}

#[test]
fn dash_without_an_air_jump_left_keeps_falling() {
    let mut f = Fighter2D::new();
    f.state = FighterState::Falling;
    f.jumps_remaining = 0;
    f.airdashes_remaining = 1;
    let mut p = player_holding(AxisDir::Positive, Some(Action::Dash));
    let s = f.resume(&mut p, still(), Reply::Nothing);
    assert_eq!(
        s.commands,
        vec![
            Command::Face(FacingDirection::Right),
            Command::WalkInputPreserving(AxisDir::Positive),
            Command::Gravity,
        ]
    );
    assert_eq!(s.next, Next::Ask(Query::Slide));
    assert_eq!(f.state, FighterState::Falling);
    assert_eq!(f.airdashes_remaining, 1);
    assert_eq!(p.peek_action(), Some(Action::Dash));
}

#[test]
fn dash_without_an_airdash_or_a_direction_keeps_falling() {
    let mut g = Fighter2D::new();
    g.state = FighterState::Falling;
    g.jumps_remaining = 1;
    g.airdashes_remaining = 0;
    let mut q = player_holding(AxisDir::Positive, Some(Action::Dash));
    let s = g.resume(&mut q, still(), Reply::Nothing);
    assert_eq!(s.next, Next::Ask(Query::Slide));
    assert_eq!(g.state, FighterState::Falling);
    assert_eq!(g.jumps_remaining, 1);
    let mut h = Fighter2D::new();
    h.state = FighterState::Falling;
    h.jumps_remaining = 1;
    h.airdashes_remaining = 1;
    let mut r = player_holding(AxisDir::Neutral, Some(Action::Dash));
    let s = h.resume(&mut r, still(), Reply::Nothing);
    assert_eq!(s.next, Next::Ask(Query::Slide));
    assert_eq!(h.state, FighterState::Falling);
}

#[test]
fn air_jump_then_air_dash_refused_with_one_air_jump() {
    let mut f = Fighter2D::new();
    assert_eq!(f.air_jump_count, 1);
    f.state = FighterState::Falling;
    f.jumps_remaining = 1;
    f.airdashes_remaining = 1;
    let mut p = player_holding(AxisDir::Positive, Some(Action::Jump));
    f.resume(&mut p, still(), Reply::Nothing);
    assert_eq!(f.state, FighterState::AirJump);
    assert_eq!(f.jumps_remaining, 0);
    // the dash is pressed while rising from the air jump: it waits
    p.action = Some(QueuedAction { kind: Action::Dash, age: 0 });
    let s = f.resume(&mut p, still(), Reply::Nothing);
    assert_eq!(s.commands, vec![Command::Face(FacingDirection::Right), Command::Gravity]);
    assert_eq!(s.next, Next::Ask(Query::Descending));
    assert_eq!(f.state, FighterState::AirJump);
    assert_eq!(f.airdashes_remaining, 1);
    assert_eq!(p.peek_action(), Some(Action::Dash));
}

#[test]
fn rising_jump_without_air_jump_left_does_not_dash() {
    let mut f = Fighter2D::new();
    f.state = FighterState::Jumping;
    f.jumps_remaining = 0;
    f.airdashes_remaining = 1;
    let mut p = player_holding(AxisDir::Negative, Some(Action::Dash));
    let s = f.resume(&mut p, still(), Reply::Nothing);
    assert_eq!(s.next, Next::Ask(Query::Descending));
    assert_eq!(f.state, FighterState::Jumping);
    assert_eq!(p.peek_action(), Some(Action::Dash));
}

#[test]
fn air_heavy_dash_cancel_needs_an_air_jump() {
    let cancellable = AnimationState { cancellable: true, anim_finished: false };
    let mut f = Fighter2D::new();
    f.state = FighterState::AttackAirHeavy;
    f.jumps_remaining = 0;
    f.airdashes_remaining = 1;
    let mut p = player_holding(AxisDir::Positive, Some(Action::Dash));
    let s = f.resume(&mut p, cancellable, Reply::Nothing);
    assert_eq!(s.next, Next::Ask(Query::Slide));
    assert_eq!(f.state, FighterState::AttackAirHeavy);
    assert_eq!(p.peek_action(), Some(Action::Dash));
    let mut g = Fighter2D::new();
    g.state = FighterState::AttackAirHeavy;
    g.jumps_remaining = 1;
    g.airdashes_remaining = 1;
    let mut q = player_holding(AxisDir::Positive, Some(Action::Dash));
    let s = g.resume(&mut q, cancellable, Reply::Nothing);
    assert_eq!(s.next, Next::Continue);
    assert_eq!(g.state, FighterState::AirDash);
    assert_eq!(g.jumps_remaining, 0);
    assert_eq!(g.airdashes_remaining, 0);
}

#[test]
fn landing_restores_air_jumps_and_airdashes() {
    let mut f = Fighter2D::new();
    f.state = FighterState::Falling;
    let mut c = NoController;
    f.resume(&mut c, still(), Reply::Nothing);
    f.resume(&mut c, still(), landed());
    assert_eq!(f.airdashes_remaining, 1);
    assert_eq!(f.jumps_remaining, 1);
}

#[test]
fn hitstun_ends_when_frames_run_out() {
    let mut f = Fighter2D::new();
    f.state = FighterState::Stand;
    let mut a = Attack2D::new();
    a.hitstun_frames = 2;
    f.hit(&a);
    let mut c = NoController;
    let s = f.resume(&mut c, still(), Reply::Nothing);
    assert_eq!(s.commands, vec![Command::KnockbackDamping, Command::Gravity]);
    let s = f.resume(&mut c, still(), airborne());
    assert_eq!(s.next, Next::Done);
    assert_eq!(f.state, FighterState::HitStun);
    assert_eq!(f.hitstun_frames_remaining, 1);
    f.resume(&mut c, still(), Reply::Nothing);
    let s = f.resume(&mut c, still(), airborne());
    assert_eq!(s.commands, vec![Command::PlayAnim(Anim::Fall)]);
    assert_eq!(f.state, FighterState::Falling);
}

#[test]
fn iframes_run_down_once_per_frame() {
    let mut f = Fighter2D::new();
    f.state = FighterState::Stand;
    f.iframes_remaining = 2;
    let mut c = NoController;
    let s = f.resume(&mut c, still(), Reply::Nothing);
    assert_eq!(s.next, Next::Done);
    assert_eq!(f.iframes_remaining, 1);
    f.resume(&mut c, still(), Reply::Nothing);
    assert_eq!(f.iframes_remaining, 0);
    f.resume(&mut c, still(), Reply::Nothing);
    assert_eq!(f.iframes_remaining, 0);
    assert!(f.vulnerable());
}

#[test]
fn light_attack_string_cancels_while_cancellable() {
    let mut f = Fighter2D::new();
    f.state = FighterState::Stand;
    let mut p = player_holding(AxisDir::Neutral, Some(Action::AttackLight));
    let s = f.resume(&mut p, still(), Reply::Nothing);
    assert_eq!(
        s.commands,
        vec![
            Command::ResetAnimState,
            Command::StopMotion,
            Command::PlayAnim(Anim::AttackGroundLight1),
        ]
    );
    assert_eq!(f.state, FighterState::AttackGroundLight1);
    // not cancellable yet: the pressed attack waits
    p.action = Some(QueuedAction { kind: Action::AttackLight, age: 0 });
    let s = f.resume(&mut p, still(), Reply::Nothing);
    assert_eq!(s.next, Next::Done);
    assert_eq!(f.state, FighterState::AttackGroundLight1);
    // cancellable: the second hit of the string
    let s = f.resume(&mut p, AnimationState { cancellable: true, anim_finished: false }, Reply::Nothing);
    assert_eq!(s.next, Next::Continue);
    assert_eq!(f.state, FighterState::AttackGroundLight2);
    assert_eq!(p.peek_action(), None);
    // the animation ends: back to standing
    f.resume(&mut p, still(), Reply::Nothing);
    let s = f.resume(&mut p, AnimationState { cancellable: false, anim_finished: true }, Reply::Nothing);
    assert_eq!(s.commands, vec![Command::StopMotion, Command::PlayAnim(Anim::Idle)]);
    assert_eq!(f.state, FighterState::Stand);
}

#[test]
fn contact_makes_an_attack_cancellable() {
    let mut f = Fighter2D::new();
    assert!(!f.can_cancel_attack(still()));
    f.attack_hit();
    assert!(f.attack_contact);
    assert!(f.can_cancel_attack(still()));
    let f2 = Fighter2D::new();
    assert!(f2.can_cancel_attack(AnimationState { cancellable: false, anim_finished: true }));
}

#[test]
fn aerial_attack_lands_on_the_floor() {
    let mut f = Fighter2D::new();
    f.state = FighterState::Falling;
    let mut p = player_holding(AxisDir::Neutral, Some(Action::AttackHeavy));
    let s = f.resume(&mut p, still(), Reply::Nothing);
    assert_eq!(
        s.commands,
        vec![Command::ResetAnimState, Command::PlayAnim(Anim::AttackAirHeavy)]
    );
    assert_eq!(f.state, FighterState::AttackAirHeavy);
    let s = f.resume(&mut p, still(), Reply::Nothing);
    assert_eq!(
        s.commands,
        vec![Command::WalkInputPreserving(AxisDir::Neutral), Command::Gravity]
    );
    assert_eq!(s.next, Next::Ask(Query::Slide));
    let s = f.resume(&mut p, still(), landed());
    assert_eq!(
        s.commands,
        vec![Command::AirDamping, Command::StopMotion, Command::PlayAnim(Anim::Idle)]
    );
    assert_eq!(s.next, Next::Continue);
    assert_eq!(f.state, FighterState::Stand);
    let s = f.resume(&mut p, still(), Reply::Nothing);
    assert_eq!(s.next, Next::Done);
    assert_eq!(f.state, FighterState::Stand);
}

#[test]
fn aerial_jump_cancel_rises_like_a_jump() {
    let mut f = Fighter2D::new();
    f.state = FighterState::AttackAirLight1;
    f.jumps_remaining = 1;
    let mut p = player_holding(AxisDir::Neutral, Some(Action::Jump));
    let s = f.resume(&mut p, AnimationState { cancellable: true, anim_finished: false }, Reply::Nothing);
    assert_eq!(s.next, Next::Continue);
    assert_eq!(f.state, FighterState::AirJump);
    assert_eq!(f.resume, Resume::Process(FighterState::Jumping));
    assert_eq!(f.jumps_remaining, 0);
}

#[test]
fn computer_player_actions_stay_offered() {
    let mut f = Fighter2D::new();
    f.state = FighterState::Stand;
    let mut ai = FighterControllerAi::new();
    ai.senses = Some(AiSenses {
        self_state: FighterState::Stand,
        opp_to_right: true,
        far: false,
        opp_high: true,
        opp_not_above: false,
        facing_opp: true,
    });
    let s = f.resume(&mut ai, still(), Reply::Nothing);
    assert_eq!(s.next, Next::Continue);
    assert_eq!(f.state, FighterState::Jumping);
    assert_eq!(ai.peek_action(), Some(Action::Jump));
}
