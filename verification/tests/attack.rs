use robo::attack::Attack2D;
use robo::fighter::{Anim, Command, Fighter2D, FighterState};

#[test]
fn new_attack_has_scene_defaults() {
    let a = Attack2D::new();
    assert_eq!(a.damage, 0);
    assert_eq!(a.hitstun_frames, 1);
    assert_eq!(a.invincibility_frames, 0);
    assert!(!a.allow_multi_hits);
    assert!(a.hit_targets.is_empty());
}

#[test]
fn single_hit_attack_hits_each_body_once() {
    let mut a = Attack2D::new();
    assert!(a.on_body_entered(7, false, Some(true)));
    assert!(!a.on_body_entered(7, false, Some(true)));
    assert!(a.on_body_entered(8, false, Some(true)));
    a.clear_hit_targets();
    assert!(a.on_body_entered(7, false, Some(true)));
}

#[test]
fn multi_hit_attack_hits_again() {
    let mut a = Attack2D::new();
    a.allow_multi_hits = true;
    assert!(a.on_body_entered(7, false, Some(true)));
    assert!(a.on_body_entered(7, false, Some(true)));
    assert!(a.hit_targets.is_empty());
}

#[test]
fn attack_spares_its_source_and_invulnerable_or_inert_bodies() {
    let mut a = Attack2D::new();
    assert!(!a.on_body_entered(1, true, Some(true)));
    assert!(!a.on_body_entered(2, false, Some(false)));
    assert!(!a.on_body_entered(3, false, None));
    assert!(a.hit_targets.is_empty());
}

#[test]
fn accepted_hit_is_remembered() {
    let mut a = Attack2D::new();
    a.accept_hit(5);
    assert!(a.hit_targets.contains(&5));
    assert!(!a.on_body_entered(5, false, Some(true)));
}

#[test]
fn hit_puts_fighter_into_hitstun_with_iframes() {
    let mut f = Fighter2D::new();
    let mut a = Attack2D::new();
    a.hitstun_frames = 9;
    a.invincibility_frames = 4;
    assert!(f.vulnerable());
    let cmds = f.hit(&a);
    assert_eq!(f.state, FighterState::HitStun);
    assert_eq!(f.hitstun_frames_remaining, 9);
    assert_eq!(f.iframes_remaining, 4);
    assert!(!f.vulnerable());
    assert_eq!(cmds, vec![Command::Knockback, Command::PlayAnim(Anim::Hitstun)]);
}

#[test]
fn single_hit_attack_hits_each_body_of_a_sequence_once() {
    let mut a = Attack2D::new();
    a.accept_hit(4);
    let entries = [
        (1i64, false, Some(true)),
        (4, false, Some(true)),
        (2, false, Some(false)),
        (1, false, Some(true)),
        (2, false, Some(true)),
        (3, true, Some(true)),
        (2, false, Some(true)),
        (4, false, Some(true)),
        (1, false, Some(true)),
    ];
    let mut hits = Vec::new();
    for &(body, is_source, vulnerable) in entries.iter() {
        if a.on_body_entered(body, is_source, vulnerable) {
            hits.push(body);
        }
    }
    assert_eq!(hits, vec![1, 2]);
}
