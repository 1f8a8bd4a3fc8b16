use robo::fighter::FighterState;
use robo::input::ai::pick_opponent;
use robo::input::{Action, AiSenses, AxisDir, FighterControllerAi};

fn senses(state: FighterState) -> AiSenses {
    AiSenses {
        self_state: state,
        opp_to_right: true,
        far: false,
        opp_high: false,
        opp_not_above: true,
        facing_opp: true,
    }
}

fn ai_with(s: AiSenses) -> FighterControllerAi {
    let mut ai = FighterControllerAi::new();
    ai.senses = Some(s);
    ai
}

#[test]
fn new_ai_has_scene_defaults() {
    let ai = FighterControllerAi::new();
    assert!(ai.enable);
    assert_eq!(ai.reaction_delay, 12);
    assert_eq!(ai.self_delay, 6);
    assert_eq!(ai.peek_action(), None);
    assert_eq!(ai.current_horizontal(), AxisDir::Neutral);
}

#[test]
fn disabled_ai_does_nothing() {
    let mut ai = ai_with(AiSenses { opp_high: true, ..senses(FighterState::Stand) });
    ai.enable = false;
    assert_eq!(ai.peek_action(), None);
    assert_eq!(ai.current_horizontal(), AxisDir::Neutral);
    assert!(!ai.should_maintain_jump());
    assert!(!ai.should_maintain_dash());
    assert!(!ai.wants_fastfall());
}

#[test]
fn grounded_ai_jumps_dashes_or_attacks() {
    let s = senses(FighterState::Walk);
    assert_eq!(ai_with(AiSenses { opp_high: true, far: true, ..s }).peek_action(), Some(Action::Jump));
    assert_eq!(ai_with(AiSenses { far: true, ..s }).peek_action(), Some(Action::Dash));
    assert_eq!(ai_with(s).peek_action(), Some(Action::AttackLight));
    assert_eq!(ai_with(AiSenses { facing_opp: false, ..s }).peek_action(), None);
    let s3 = senses(FighterState::AttackGroundLight3);
    assert_eq!(ai_with(s3).peek_action(), Some(Action::AttackHeavy));
}

#[test]
fn ai_always_cancels_ground_heavies_and_jumps_out_of_dashes() {
    let s = senses(FighterState::AttackGroundHeavy);
    assert_eq!(ai_with(s).peek_action(), Some(Action::Dash));
    assert_eq!(ai_with(AiSenses { opp_high: true, ..s }).peek_action(), Some(Action::Jump));
    assert_eq!(ai_with(senses(FighterState::GroundDash)).peek_action(), Some(Action::Jump));
    assert_eq!(ai_with(senses(FighterState::AirDash)).peek_action(), None);
    assert_eq!(ai_with(senses(FighterState::HitStun)).peek_action(), None);
}

#[test]
fn airborne_ai_jumps_or_dashes() {
    let s = senses(FighterState::Falling);
    assert_eq!(ai_with(s).peek_action(), None);
    assert_eq!(ai_with(AiSenses { far: true, ..s }).peek_action(), Some(Action::Dash));
    assert_eq!(ai_with(AiSenses { opp_high: true, ..s }).peek_action(), Some(Action::Jump));
}

#[test]
fn ai_walks_towards_a_far_or_unfaced_opponent() {
    let s = senses(FighterState::Stand);
    assert_eq!(ai_with(s).current_horizontal(), AxisDir::Neutral);
    assert_eq!(ai_with(AiSenses { far: true, ..s }).current_horizontal(), AxisDir::Positive);
    assert_eq!(
        ai_with(AiSenses { facing_opp: false, opp_to_right: false, ..s }).current_horizontal(),
        AxisDir::Negative
    );
}

#[test]
fn ai_holds_jump_dash_and_fastfall_by_distance() {
    let s = senses(FighterState::Jumping);
    assert!(!ai_with(s).should_maintain_jump());
    assert!(ai_with(AiSenses { opp_high: true, ..s }).should_maintain_jump());
    assert!(ai_with(AiSenses { far: true, ..s }).should_maintain_dash());
    assert!(!ai_with(AiSenses { far: true, facing_opp: false, ..s }).should_maintain_dash());
    assert!(ai_with(s).wants_fastfall());
    assert!(!ai_with(AiSenses { opp_not_above: false, ..s }).wants_fastfall());
}

#[test]
fn computer_player_picks_the_first_other_fighter() {
    assert_eq!(pick_opponent(5, &vec![5, 9, 7]), Some(1));
    assert_eq!(pick_opponent(5, &vec![3, 5]), Some(0));
    assert_eq!(pick_opponent(5, &vec![5]), None);
    assert_eq!(pick_opponent(5, &vec![]), None);
}
