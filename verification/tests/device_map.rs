use robo::input::device_map::{
    channel_devices, device_id_keyboard, device_id_mouse, device_is_joypad,
    device_matches_event, early_physics_priority, event_device, next_channel_index,
    InputAction, InputChannel, JOYPAD_UNIVERSAL,
};
use robo::input::Action;

#[test]
fn default_names_of_actions() {
    assert_eq!(InputAction::AvatarLeft.get_default_name(), "avatar_move_left");
    assert_eq!(InputAction::AvatarRight.get_default_name(), "avatar_move_right");
    assert_eq!(InputAction::AvatarUp.get_default_name(), "avatar_move_up");
    assert_eq!(InputAction::AvatarDown.get_default_name(), "avatar_move_down");
    assert_eq!(InputAction::AttackLight.get_default_name(), "avatar_attack_light");
    assert_eq!(InputAction::AttackHeavy.get_default_name(), "avatar_attack_heavy");
    assert_eq!(InputAction::Dash.get_default_name(), "avatar_dash");
    assert_eq!(InputAction::Jump.get_default_name(), "avatar_jump");
}

#[test]
fn build_map_numbers_every_action_once() {
    let map = InputAction::build_map(3);
    assert_eq!(map.len(), 8);
    assert_eq!(map[0], (InputAction::AvatarLeft, String::from("avatar_move_left_3")));
    assert_eq!(map[4], (InputAction::Jump, String::from("avatar_jump_3")));
    assert_eq!(map[7], (InputAction::AttackHeavy, String::from("avatar_attack_heavy_3")));
    for i in 0..map.len() {
        for j in 0..map.len() {
            if i != j {
                assert_ne!(map[i].0, map[j].0);
            }
        }
    }
}

#[test]
fn channel_looks_up_its_names() {
    let ch = InputChannel::new(1);
    assert_eq!(ch.index, 1);
    assert_eq!(ch.action_name(InputAction::Dash), "avatar_dash_1");
    assert_eq!(ch.action_name(InputAction::AvatarDown), "avatar_move_down_1");
}

#[test]
fn dominant_action_prefers_dash_then_jump_then_light_then_heavy() {
    let ch = InputChannel::new(0);
    assert_eq!(ch.get_dominant_action(true, true, true, true), Some(Action::Dash));
    assert_eq!(ch.get_dominant_action(false, true, true, true), Some(Action::Jump));
    assert_eq!(ch.get_dominant_action(false, false, true, true), Some(Action::AttackLight));
    assert_eq!(ch.get_dominant_action(false, false, false, true), Some(Action::AttackHeavy));
    assert_eq!(ch.get_dominant_action(false, false, false, false), None);
}

#[test]
fn engine_device_ids_of_keyboard_and_mouse() {
    assert_eq!(device_id_keyboard(), 16);
    assert_eq!(device_id_mouse(), 32);
}

#[test]
fn joypads_are_devices_other_than_keyboard_and_mouse() {
    assert!(device_is_joypad(0));
    assert!(device_is_joypad(1));
    assert!(!device_is_joypad(16));
    assert!(!device_is_joypad(32));
}

#[test]
fn events_match_their_device_or_every_joypad() {
    assert!(device_matches_event(3, 3));
    assert!(!device_matches_event(2, 3));
    assert!(device_matches_event(JOYPAD_UNIVERSAL, 0));
    assert!(!device_matches_event(JOYPAD_UNIVERSAL, 16));
    assert!(!device_matches_event(JOYPAD_UNIVERSAL, 32));
}

#[test]
fn key_and_mouse_events_come_from_keyboard_and_mouse() {
    assert_eq!(event_device(-1, true, false), 16);
    assert_eq!(event_device(-1, false, true), 32);
    assert_eq!(event_device(4, false, false), 4);
}

#[test]
fn channels_take_their_devices() {
    assert_eq!(channel_devices(0), vec![0]);
    assert_eq!(channel_devices(1), vec![1, 16, 32]);
    assert_eq!(channel_devices(2), Vec::<i32>::new());
}

#[test]
fn next_channel_counts_claimed_channels() {
    assert_eq!(next_channel_index(&vec![]), 0);
    assert_eq!(next_channel_index(&vec![true, false, true]), 2);
}

#[test]
fn controllers_run_before_everything_else() {
    assert_eq!(early_physics_priority(0), -1);
    assert_eq!(early_physics_priority(5), -1);
    assert_eq!(early_physics_priority(-3), -3);
}

#[test]
fn channels_never_share_an_action_name() {
    let indices = [0usize, 1, 2, 10, 11, 12, 21, 110];
    for &i in indices.iter() {
        for &j in indices.iter() {
            let a = InputAction::build_map(i);
            let b = InputAction::build_map(j);
            for x in 0..a.len() {
                for y in 0..b.len() {
                    if i != j || x != y {
                        assert_ne!(a[x].1, b[y].1);
                    }
                }
            }
        }
    }
    assert_eq!(InputAction::build_map(11)[4].1, String::from("avatar_jump_11"));
    assert_eq!(InputAction::build_map(1)[4].1, String::from("avatar_jump_1"));
}
