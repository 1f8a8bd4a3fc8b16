use robo::input::{Action, AxisDir, MovementFrame};

#[test]
fn axis_dir_to_i32_gives_unit_signs() {
    assert_eq!(AxisDir::Positive.to_i32(), 1);
    assert_eq!(AxisDir::Neutral.to_i32(), 0);
    assert_eq!(AxisDir::Negative.to_i32(), -1);
}

#[test]
fn axis_dir_default_is_neutral() {
    assert_eq!(AxisDir::default(), AxisDir::Neutral);
}

#[test]
fn neutral_frame_rests_on_both_axes() {
    let n = MovementFrame::neutral();
    assert_eq!(n.vertical, AxisDir::Neutral);
    assert_eq!(n.horizontal, AxisDir::Neutral);
    assert_eq!(MovementFrame::default(), n);
}

#[test]
fn fastfall_frame_is_straight_down() {
    let down = MovementFrame { vertical: AxisDir::Negative, horizontal: AxisDir::Neutral };
    let down_right = MovementFrame { vertical: AxisDir::Negative, horizontal: AxisDir::Positive };
    let up = MovementFrame { vertical: AxisDir::Positive, horizontal: AxisDir::Neutral };
    assert!(down.is_fastfall());
    assert!(!down_right.is_fastfall());
    assert!(!up.is_fastfall());
}

#[test]
fn actions_order_as_declared() {
    assert!(Action::AttackLight < Action::AttackHeavy);
    assert!(Action::Dash < Action::Jump);
}
