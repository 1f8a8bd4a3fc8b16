use vstd::prelude::*;

use crate::fighter::frame::{spec_tick_iframes, Outcome};
use crate::fighter::{
    Anim, AnimationState, Command, FacingDirection, Fighter2D, FighterState, Next, Query, Reply,
    Resume, SlideResult,
};
use crate::input::{Action, AxisDir, FighterController};

verus! {

/// The side that held horizontal input `h` (not neutral) turns a fighter to.
pub open spec fn facing_towards(h: AxisDir) -> FacingDirection {
    if h == AxisDir::Positive {
        FacingDirection::Right
    } else {
        FacingDirection::Left
    }
}

/// The outcome of the first step of a frame of `f`.
pub open spec fn first_step<C: FighterController>(f: Fighter2D, c: C, anim: AnimationState) -> Outcome<C> {
    f.spec_resume(c, anim, Reply::Nothing)
}

/// The step moved the fighter into `s`, whose routine runs next in the same frame.
pub open spec fn goes_on_in<C>(o: Outcome<C>, s: FighterState) -> bool {
    o.fighter.state == s && o.fighter.resume == Resume::Process(s) && o.next == Next::Continue
}

/// A walking fighter that holds a direction turns to it and then takes the offered action:
/// a jump jumps, a dash starts a ground dash, a light attack starts the light string and a
/// heavy attack the ground heavy; without an action it walks on.
pub proof fn lemma_walking_takes_its_action<C: FighterController>(
    f: Fighter2D,
    c: C,
    anim: AnimationState,
)
    requires
        f.wf(),
        f.state == FighterState::Walk,
        f.resume == Resume::Idle,
        c.spec_horizontal(f) != AxisDir::Neutral,
    ensures
        ({
            let d = facing_towards(c.spec_horizontal(f));
            let g = Fighter2D { facing: d, ..f };
            let a = c.spec_action(g);
            let o = first_step(f, c, anim);
            &&& o.fighter.facing == d
            &&& o.controller == c.spec_consumed(g)
            &&& a == Some(Action::AttackHeavy) ==> goes_on_in(o, FighterState::AttackGroundHeavy)
                && o.commands == seq![
                    Command::Face(d),
                    Command::ResetAnimState,
                    Command::StopMotion,
                    Command::PlayAnim(Anim::AttackGroundHeavy),
                ]
            &&& a == Some(Action::AttackLight) ==> goes_on_in(o, FighterState::AttackGroundLight1)
                && o.commands == seq![
                    Command::Face(d),
                    Command::ResetAnimState,
                    Command::StopMotion,
                    Command::PlayAnim(Anim::AttackGroundLight1),
                ]
            &&& a == Some(Action::Jump) ==> goes_on_in(o, FighterState::Jumping) && o.commands
                == seq![Command::Face(d), Command::PlayAnim(Anim::Jump), Command::JumpImpulse]
            &&& a == Some(Action::Dash) ==> goes_on_in(o, FighterState::GroundDash)
                && o.fighter.dash_frames_remaining == f.ground_dash_frames && o.commands == seq![
                    Command::Face(d),
                    Command::DashImpulse { facing: d, airborne: false },
                    Command::PlayAnim(Anim::Dash),
                ]
            &&& a is None ==> o.fighter.state == FighterState::Walk && o.next == Next::Done
                && o.commands == seq![
                    Command::Face(d),
                    Command::WalkInput(c.spec_consumed(g).spec_horizontal(g)),
                    Command::HaltVertical,
                    Command::MoveAndSlide,
                ]
        }),
{
    let h = c.spec_horizontal(f);
    let d = facing_towards(h);
    let g = Fighter2D { facing: d, ..f };
    assert(f.spec_update_facing(h) == (g, seq![Command::Face(d)]));
    let o = first_step(f, c, anim);
    match c.spec_action(g) {
        Some(Action::AttackHeavy) => {
            assert(o.commands =~= seq![
                Command::Face(d),
                Command::ResetAnimState,
                Command::StopMotion,
                Command::PlayAnim(Anim::AttackGroundHeavy),
            ]);
        },
        Some(Action::AttackLight) => {
            assert(o.commands =~= seq![
                Command::Face(d),
                Command::ResetAnimState,
                Command::StopMotion,
                Command::PlayAnim(Anim::AttackGroundLight1),
            ]);
        },
        Some(Action::Jump) => {
            assert(o.commands =~= seq![
                Command::Face(d),
                Command::PlayAnim(Anim::Jump),
                Command::JumpImpulse,
            ]);
        },
        Some(Action::Dash) => {
            assert(o.commands =~= seq![
                Command::Face(d),
                Command::DashImpulse { facing: d, airborne: false },
                Command::PlayAnim(Anim::Dash),
            ]);
        },
        None => {
            assert(o.commands =~= seq![
                Command::Face(d),
                Command::WalkInput(c.spec_consumed(g).spec_horizontal(g)),
                Command::HaltVertical,
                Command::MoveAndSlide,
            ]);
        },
    }
}

/// A walking fighter whose stick rests stops and stands, with its air budgets back.
pub proof fn lemma_walking_without_input_stands<C: FighterController>(
    f: Fighter2D,
    c: C,
    anim: AnimationState,
)
    requires
        f.wf(),
        f.state == FighterState::Walk,
        f.resume == Resume::Idle,
        c.spec_horizontal(f) == AxisDir::Neutral,
    ensures
        ({
            let o = first_step(f, c, anim);
            &&& goes_on_in(o, FighterState::Stand)
            &&& o.commands == seq![Command::StopMotion, Command::PlayAnim(Anim::Idle)]
            &&& o.fighter.jumps_remaining == f.air_jump_count
            &&& o.fighter.airdashes_remaining == f.airdash_count
            &&& o.controller == c
        }),
{
}

/// A standing fighter takes the offered action (a dash is dropped): a jump jumps, a light
/// attack starts the light string, a heavy attack the ground heavy; otherwise held input
/// starts a walk, and without it the fighter stands still.
pub proof fn lemma_standing_takes_its_action<C: FighterController>(
    f: Fighter2D,
    c: C,
    anim: AnimationState,
)
    requires
        f.wf(),
        f.state == FighterState::Stand,
        f.resume == Resume::Idle,
    ensures
        ({
            let a = c.spec_action(f);
            let c1 = c.spec_consumed(f);
            let o = first_step(f, c, anim);
            &&& o.controller == c1
            &&& a == Some(Action::Jump) ==> goes_on_in(o, FighterState::Jumping) && o.commands
                == seq![Command::PlayAnim(Anim::Jump), Command::JumpImpulse]
            &&& a == Some(Action::AttackLight) ==> goes_on_in(o, FighterState::AttackGroundLight1)
                && o.commands == seq![
                    Command::ResetAnimState,
                    Command::StopMotion,
                    Command::PlayAnim(Anim::AttackGroundLight1),
                ]
            &&& a == Some(Action::AttackHeavy) ==> goes_on_in(o, FighterState::AttackGroundHeavy)
                && o.commands == seq![
                    Command::ResetAnimState,
                    Command::StopMotion,
                    Command::PlayAnim(Anim::AttackGroundHeavy),
                ]
            &&& (a is None || a == Some(Action::Dash)) && c1.spec_horizontal(f) != AxisDir::Neutral
                ==> goes_on_in(o, FighterState::Walk) && o.commands == seq![Command::PlayAnim(Anim::Run)]
            &&& (a is None || a == Some(Action::Dash)) && c1.spec_horizontal(f) == AxisDir::Neutral
                ==> o.fighter.state == FighterState::Stand && o.next == Next::Done && o.commands
                == Seq::<Command>::empty()
        }),
{
}

/// The step moved the fighter into the attack `s`, which starts without contact, stopping
/// the fighter (all but the air heavy) and playing the attack's animation `anim`.
pub open spec fn starts_attack<C>(o: Outcome<C>, s: FighterState, anim: Anim) -> bool {
    &&& goes_on_in(o, s)
    &&& !o.fighter.attack_contact
    &&& o.commands == if s == FighterState::AttackAirHeavy {
        seq![Command::ResetAnimState, Command::PlayAnim(anim)]
    } else {
        seq![Command::ResetAnimState, Command::StopMotion, Command::PlayAnim(anim)]
    }
}

/// The grounded attacks.
pub open spec fn is_ground_attack(s: FighterState) -> bool {
    s == FighterState::AttackGroundLight1 || s == FighterState::AttackGroundLight2 || s
        == FighterState::AttackGroundLight3 || s == FighterState::AttackGroundHeavy || s
        == FighterState::AttackLauncher || s == FighterState::AttackStinger || s
        == FighterState::AttackRisingSlash || s == FighterState::AttackDivekick || s
        == FighterState::AttackHelmBreaker
}

/// While a grounded attack may be cancelled (it has hit, or its animation allows it or is
/// over), the offered action cancels it: the light string runs light 1, light 2, light 3;
/// each light hit goes on into the ground heavy; the light hits, the ground heavy and the
/// launcher cancel into a jump or a ground dash. The action is taken when it cancels.
pub proof fn lemma_ground_attack_cancels<C: FighterController>(
    f: Fighter2D,
    c: C,
    anim: AnimationState,
)
    requires
        f.wf(),
        f.resume == Resume::Idle,
        is_ground_attack(f.state),
        f.attack_contact || anim.cancellable || anim.anim_finished,
    ensures
        ({
            let k = f.state;
            let a = c.spec_action(f);
            let o = first_step(f, c, anim);
            let light = k == FighterState::AttackGroundLight1 || k
                == FighterState::AttackGroundLight2 || k == FighterState::AttackGroundLight3;
            let normal = light || k == FighterState::AttackGroundHeavy || k
                == FighterState::AttackLauncher;
            &&& k == FighterState::AttackGroundLight1 && a == Some(Action::AttackLight)
                ==> starts_attack(o, FighterState::AttackGroundLight2, Anim::AttackGroundLight2)
            &&& k == FighterState::AttackGroundLight2 && a == Some(Action::AttackLight)
                ==> starts_attack(o, FighterState::AttackGroundLight3, Anim::AttackGroundLight3)
            &&& light && a == Some(Action::AttackHeavy) ==> starts_attack(
                o,
                FighterState::AttackGroundHeavy,
                Anim::AttackGroundHeavy,
            )
            &&& normal && a == Some(Action::Jump) ==> goes_on_in(o, FighterState::Jumping)
                && o.commands == seq![Command::PlayAnim(Anim::Jump), Command::JumpImpulse]
            &&& normal && a == Some(Action::Dash) ==> goes_on_in(o, FighterState::GroundDash)
                && o.fighter.dash_frames_remaining == f.ground_dash_frames && o.commands == seq![
                    Command::DashImpulse { facing: f.facing, airborne: false },
                    Command::PlayAnim(Anim::Dash),
                ]
            &&& o.next == Next::Continue ==> o.controller == c.spec_consumed(f)
        }),
{
}

/// A grounded attack that is not cancelled stays as it is, leaving the offered action in
/// place, until its animation is over; then the fighter stands, or walks if input is held.
/// It is not cancelled when it may not be yet, when nothing is offered, or when the
/// offered action does not follow it: a light attack after the third light hit, an attack
/// after the ground heavy or the launcher, anything after the other command attacks.
pub proof fn lemma_ground_attack_without_cancel<C: FighterController>(
    f: Fighter2D,
    c: C,
    anim: AnimationState,
)
    requires
        f.wf(),
        f.resume == Resume::Idle,
        is_ground_attack(f.state),
        ({
            let k = f.state;
            let a = c.spec_action(f);
            ||| !(f.attack_contact || anim.cancellable || anim.anim_finished)
            ||| a is None
            ||| k == FighterState::AttackGroundLight3 && a == Some(Action::AttackLight)
            ||| (k == FighterState::AttackGroundHeavy || k == FighterState::AttackLauncher)
                && (a == Some(Action::AttackLight) || a == Some(Action::AttackHeavy))
            ||| k == FighterState::AttackStinger || k == FighterState::AttackRisingSlash || k
                == FighterState::AttackDivekick || k == FighterState::AttackHelmBreaker
        }),
    ensures
        ({
            let o = first_step(f, c, anim);
            let h = c.spec_horizontal(f);
            &&& o.controller == c
            &&& o.next == Next::Done
            &&& !anim.anim_finished ==> o.fighter.state == f.state && o.commands
                == Seq::<Command>::empty()
            &&& anim.anim_finished && h == AxisDir::Neutral ==> o.fighter.state
                == FighterState::Stand && o.commands == seq![
                Command::StopMotion,
                Command::PlayAnim(Anim::Idle),
            ]
            &&& anim.anim_finished && h != AxisDir::Neutral ==> o.fighter.state
                == FighterState::Walk && o.commands == seq![Command::PlayAnim(Anim::Run)]
        }),
{
}

/// The aerial attacks.
pub open spec fn is_air_attack(s: FighterState) -> bool {
    s == FighterState::AttackAirLight1 || s == FighterState::AttackAirLight2 || s
        == FighterState::AttackAirLight3 || s == FighterState::AttackAirHeavy
}

/// While an aerial attack may be cancelled, the offered action cancels it: the air light
/// string runs light 1, light 2, light 3; each air light hit goes on into the air heavy;
/// any aerial attack cancels into an air jump while an air jump is left (rising like a
/// jump) and into an air dash while an air jump and an airdash are left, spending them.
pub proof fn lemma_air_attack_cancels<C: FighterController>(
    f: Fighter2D,
    c: C,
    anim: AnimationState,
)
    requires
        f.wf(),
        f.resume == Resume::Idle,
        is_air_attack(f.state),
        f.attack_contact || anim.cancellable || anim.anim_finished,
    ensures
        ({
            let k = f.state;
            let a = c.spec_action(f);
            let o = first_step(f, c, anim);
            let light = k == FighterState::AttackAirLight1 || k == FighterState::AttackAirLight2
                || k == FighterState::AttackAirLight3;
            &&& k == FighterState::AttackAirLight1 && a == Some(Action::AttackLight)
                ==> starts_attack(o, FighterState::AttackAirLight2, Anim::AttackAirLight2)
            &&& k == FighterState::AttackAirLight2 && a == Some(Action::AttackLight)
                ==> starts_attack(o, FighterState::AttackAirLight3, Anim::AttackAirLight3)
            &&& light && a == Some(Action::AttackHeavy) ==> starts_attack(
                o,
                FighterState::AttackAirHeavy,
                Anim::AttackAirHeavy,
            )
            &&& a == Some(Action::Jump) && f.jumps_remaining >= 1 ==> o.fighter.state
                == FighterState::AirJump && o.fighter.resume == Resume::Process(
                FighterState::Jumping,
            ) && o.next == Next::Continue && o.fighter.jumps_remaining + 1 == f.jumps_remaining
                && o.commands == seq![Command::AirJumpImpulse, Command::PlayAnim(Anim::Jump)]
            &&& a == Some(Action::Dash) && f.jumps_remaining >= 1 && f.airdashes_remaining >= 1
                ==> goes_on_in(o, FighterState::AirDash) && o.fighter.jumps_remaining + 1
                == f.jumps_remaining && o.fighter.airdashes_remaining + 1 == f.airdashes_remaining
                && o.fighter.dash_frames_remaining == f.airdash_frames && o.commands == seq![
                    Command::DashImpulse { facing: f.facing, airborne: true },
                    Command::PlayAnim(Anim::Dash),
                ]
            &&& o.next == Next::Continue ==> o.controller == c.spec_consumed(f)
        }),
{
}

/// An aerial attack is not cancelled (the offered action stays in place and the budgets
/// are kept) when it may not be yet, when nothing is offered, when a jump has no air jump
/// left, when a dash lacks an air jump or an airdash, or when a light attack follows the
/// third air light hit or an attack follows the air heavy.
pub proof fn lemma_air_attack_without_cancel<C: FighterController>(
    f: Fighter2D,
    c: C,
    anim: AnimationState,
)
    requires
        f.wf(),
        f.resume == Resume::Idle,
        is_air_attack(f.state),
        ({
            let k = f.state;
            let a = c.spec_action(f);
            ||| !(f.attack_contact || anim.cancellable || anim.anim_finished)
            ||| a is None
            ||| a == Some(Action::Jump) && f.jumps_remaining == 0
            ||| a == Some(Action::Dash) && (f.jumps_remaining == 0 || f.airdashes_remaining == 0)
            ||| k == FighterState::AttackAirLight3 && a == Some(Action::AttackLight)
            ||| k == FighterState::AttackAirHeavy && (a == Some(Action::AttackLight) || a == Some(
                Action::AttackHeavy,
            ))
        }),
    ensures
        ({
            let o = first_step(f, c, anim);
            &&& o.controller == c
            &&& o.next != Next::Continue
            &&& o.fighter.state != FighterState::AirJump
            &&& o.fighter.state != FighterState::AirDash
            &&& o.fighter.jumps_remaining == f.jumps_remaining
            &&& o.fighter.airdashes_remaining == f.airdashes_remaining
        }),
{
}

/// The fighter after turning towards held input `h` (unchanged without input).
pub open spec fn turned(f: Fighter2D, h: AxisDir) -> Fighter2D {
    if h == AxisDir::Neutral {
        f
    } else {
        Fighter2D { facing: facing_towards(h), ..f }
    }
}

/// The command that turns towards held input `h` (none without input).
pub open spec fn turn_commands(h: AxisDir) -> Seq<Command> {
    if h == AxisDir::Neutral {
        Seq::empty()
    } else {
        seq![Command::Face(facing_towards(h))]
    }
}

/// The airborne states that take actions: rising from a jump or an air jump, and falling.
pub open spec fn is_airborne_free(s: FighterState) -> bool {
    s == FighterState::Jumping || s == FighterState::AirJump || s == FighterState::Falling
}

/// A rising or falling fighter turns towards held input and then takes the offered action:
/// a light attack starts the air light string, a heavy attack the air heavy; a dash while a
/// direction is held, an air jump and an airdash are left becomes an air dash that spends
/// both; a falling fighter with an air jump left air jumps, spending it.
pub proof fn lemma_airborne_takes_its_action<C: FighterController>(
    f: Fighter2D,
    c: C,
    anim: AnimationState,
)
    requires
        f.wf(),
        f.resume == Resume::Idle,
        is_airborne_free(f.state),
    ensures
        ({
            let h = c.spec_horizontal(f);
            let g = turned(f, h);
            let pre = turn_commands(h);
            let a = c.spec_action(g);
            let o = first_step(f, c, anim);
            &&& o.fighter.facing == g.facing
            &&& a == Some(Action::AttackLight) ==> goes_on_in(o, FighterState::AttackAirLight1)
                && o.commands == pre + seq![
                    Command::ResetAnimState,
                    Command::StopMotion,
                    Command::PlayAnim(Anim::AttackAirLight1),
                ] && o.controller == c.spec_consumed(g)
            &&& a == Some(Action::AttackHeavy) ==> goes_on_in(o, FighterState::AttackAirHeavy)
                && o.commands == pre + seq![
                    Command::ResetAnimState,
                    Command::PlayAnim(Anim::AttackAirHeavy),
                ] && o.controller == c.spec_consumed(g)
            &&& a == Some(Action::Dash) && h != AxisDir::Neutral && f.jumps_remaining >= 1
                && f.airdashes_remaining >= 1 ==> goes_on_in(o, FighterState::AirDash)
                && o.fighter.jumps_remaining + 1 == f.jumps_remaining
                && o.fighter.airdashes_remaining + 1 == f.airdashes_remaining
                && o.fighter.dash_frames_remaining == f.airdash_frames && o.commands == pre
                + seq![
                    Command::DashImpulse { facing: facing_towards(h), airborne: true },
                    Command::PlayAnim(Anim::Dash),
                ] && o.controller == c.spec_consumed(g)
            &&& f.state == FighterState::Falling && a == Some(Action::Jump) && f.jumps_remaining
                >= 1 ==> goes_on_in(o, FighterState::AirJump) && o.fighter.jumps_remaining + 1
                == f.jumps_remaining && o.commands == pre + seq![
                    Command::AirJumpImpulse,
                    Command::PlayAnim(Anim::Jump),
                ] && o.controller == c.spec_consumed(g)
        }),
{
    let h = c.spec_horizontal(f);
    assert(f.spec_update_facing(h) == (turned(f, h), turn_commands(h)));
}

/// A rising or falling fighter that takes no action keeps its state and budgets, leaves
/// the offered action in place, and asks the body about its motion: this happens without
/// an action, for a dash without a held direction, an air jump or an airdash, and for a
/// jump while rising or without an air jump left. A falling fighter then fastfalls when
/// asked to, else falls under gravity.
pub proof fn lemma_airborne_without_action<C: FighterController>(
    f: Fighter2D,
    c: C,
    anim: AnimationState,
)
    requires
        f.wf(),
        f.resume == Resume::Idle,
        is_airborne_free(f.state),
        ({
            let h = c.spec_horizontal(f);
            let a = c.spec_action(turned(f, h));
            ||| a is None
            ||| a == Some(Action::Dash) && (h == AxisDir::Neutral || f.jumps_remaining == 0
                || f.airdashes_remaining == 0)
            ||| a == Some(Action::Jump) && (f.state != FighterState::Falling || f.jumps_remaining
                == 0)
        }),
    ensures
        ({
            let h = c.spec_horizontal(f);
            let g = turned(f, h);
            let o = first_step(f, c, anim);
            let ff = f.fastfall || c.spec_wants_fastfall(g);
            &&& o.controller == c
            &&& o.next is Ask
            &&& o.fighter.state == f.state
            &&& o.fighter.jumps_remaining == f.jumps_remaining
            &&& o.fighter.airdashes_remaining == f.airdashes_remaining
            &&& f.state == FighterState::Falling ==> o.fighter.fastfall == ff && o.commands
                == turn_commands(h) + seq![
                Command::WalkInputPreserving(c.spec_horizontal(Fighter2D { fastfall: ff, ..g })),
                if ff {
                    Command::FastfallVelocity
                } else {
                    Command::Gravity
                },
            ]
            &&& f.state != FighterState::Falling ==> o.commands == turn_commands(h) + seq![
                Command::Gravity,
            ]
        }),
{
    let h = c.spec_horizontal(f);
    assert(f.spec_update_facing(h) == (turned(f, h), turn_commands(h)));
}

/// A ground dash uses up a frame; an offered jump (which is taken) jumps out of it; a dash
/// that is let go ends standing or walking, whose routine runs on in the same frame without
/// spending an invincibility frame; a held dash slows down and moves.
pub proof fn lemma_ground_dash_step<C: FighterController>(
    f: Fighter2D,
    c: C,
    anim: AnimationState,
)
    requires
        f.wf(),
        f.resume == Resume::Idle,
        f.state == FighterState::GroundDash,
    ensures
        ({
            let g = Fighter2D { dash_frames_remaining: (f.dash_frames_remaining - 1) as u32, ..f };
            let a = c.spec_action(g);
            let c1 = c.spec_consumed(g);
            let o = first_step(f, c, anim);
            &&& o.controller == c1
            &&& o.fighter.iframes_remaining == f.iframes_remaining
            &&& o.fighter.dash_frames_remaining + 1 == f.dash_frames_remaining
            &&& a == Some(Action::Jump) ==> goes_on_in(o, FighterState::Jumping) && o.commands
                == seq![Command::PlayAnim(Anim::Jump), Command::JumpImpulse]
            &&& a != Some(Action::Jump) && !c1.spec_maintain_dash(g) && c1.spec_horizontal(g)
                == AxisDir::Neutral ==> goes_on_in(o, FighterState::Stand) && o.commands == seq![
                Command::StopMotion,
                Command::PlayAnim(Anim::Idle),
            ]
            &&& a != Some(Action::Jump) && !c1.spec_maintain_dash(g) && c1.spec_horizontal(g)
                != AxisDir::Neutral ==> goes_on_in(o, FighterState::Walk) && o.commands == seq![
                Command::PlayAnim(Anim::Run),
            ]
            &&& a != Some(Action::Jump) && c1.spec_maintain_dash(g) ==> o.fighter.state
                == FighterState::GroundDash && o.commands == seq![Command::DashDamping] && o.next
                is Ask
        }),
{
}

/// An air dash uses up a frame and drops the offered action; let go, it starts falling;
/// held, it moves on.
pub proof fn lemma_airdash_step<C: FighterController>(
    f: Fighter2D,
    c: C,
    anim: AnimationState,
)
    requires
        f.wf(),
        f.resume == Resume::Idle,
        f.state == FighterState::AirDash,
    ensures
        ({
            let g = Fighter2D { dash_frames_remaining: (f.dash_frames_remaining - 1) as u32, ..f };
            let c1 = c.spec_consumed(g);
            let o = first_step(f, c, anim);
            &&& o.controller == c1
            &&& o.fighter.dash_frames_remaining + 1 == f.dash_frames_remaining
            &&& !c1.spec_maintain_dash(g) ==> goes_on_in(o, FighterState::Falling) && !o.fighter.fastfall
                && o.commands == seq![Command::PlayAnim(Anim::Fall)]
            &&& c1.spec_maintain_dash(g) ==> o.fighter.state == FighterState::AirDash && o.next
                is Ask && o.commands == Seq::<Command>::empty()
        }),
{
}

/// Where a move that has run its course leaves fighter `o` (from `f`), with commands `cmds`:
/// on a floor it stands (input `h` at rest) or walks, with its air budgets back; otherwise it
/// falls, without fastfall, and keeps its budgets.
pub open spec fn settles(o: Fighter2D, cmds: Seq<Command>, f: Fighter2D, slide: SlideResult, h: AxisDir) -> bool {
    if slide.collided && slide.on_floor {
        &&& o.jumps_remaining == f.air_jump_count
        &&& o.airdashes_remaining == f.airdash_count
        &&& if h == AxisDir::Neutral {
            o.state == FighterState::Stand && cmds == seq![
                Command::StopMotion,
                Command::PlayAnim(Anim::Idle),
            ]
        } else {
            o.state == FighterState::Walk && cmds == seq![Command::PlayAnim(Anim::Run)]
        }
    } else {
        &&& o.state == FighterState::Falling
        &&& !o.fastfall
        &&& o.jumps_remaining == f.jumps_remaining
        &&& o.airdashes_remaining == f.airdashes_remaining
        &&& cmds == seq![Command::PlayAnim(Anim::Fall)]
    }
}

/// The step ends the frame: the fighter is idle and has used up one invincibility frame.
pub open spec fn ends_frame<C>(o: Outcome<C>, f: Fighter2D) -> bool {
    &&& o.next == Next::Done
    &&& o.fighter.resume == Resume::Idle
    &&& o.fighter.iframes_remaining == spec_tick_iframes(f.iframes_remaining)
}

/// A falling fighter that has moved lands on a floor, standing or walking by the input it
/// held when the frame began and getting its air budgets back; otherwise it keeps falling.
/// Either way air damping follows and the frame ends.
pub proof fn lemma_fall_lands_on_floors<C: FighterController>(
    f: Fighter2D,
    c: C,
    anim: AnimationState,
    m: AxisDir,
    slide: SlideResult,
)
    requires
        f.wf(),
        f.state == FighterState::Falling,
        f.resume == (Resume::FallSlide { move_input: m }),
    ensures
        ({
            let o = f.spec_resume(c, anim, Reply::Slid(slide));
            &&& ends_frame(o, f)
            &&& o.controller == c
            &&& slide.collided && slide.on_floor ==> settles(
                o.fighter,
                o.commands.drop_last(),
                f,
                slide,
                m,
            ) && o.commands.last() == Command::AirDamping
            &&& !(slide.collided && slide.on_floor) ==> o.fighter.state == FighterState::Falling
                && o.commands == seq![Command::AirDamping] && o.fighter.jumps_remaining
                == f.jumps_remaining
        }),
{
    let o = f.spec_resume(c, anim, Reply::Slid(slide));
    if slide.collided && slide.on_floor {
        assert(o.commands.drop_last() =~= f.spec_enter_standing_or_walking(m).1);
    }
}

/// A rising fighter starts falling once it descends; while it still rises it steers, moves
/// and is damped, and a jump (not an air jump) that is no longer held starts falling.
pub proof fn lemma_rise_ends_when_descending<C: FighterController>(
    f: Fighter2D,
    c: C,
    anim: AnimationState,
    check_release: bool,
    descending: bool,
)
    requires
        f.wf(),
        f.resume == (Resume::Rising { check_release }),
    ensures
        ({
            let o = f.spec_resume(c, anim, Reply::Flag(descending));
            let moving = seq![
                Command::WalkInputPreserving(c.spec_horizontal(f)),
                Command::MoveAndSlide,
                Command::AirDamping,
            ];
            &&& o.controller == c
            &&& descending ==> goes_on_in(o, FighterState::Falling) && !o.fighter.fastfall
                && o.commands == seq![Command::PlayAnim(Anim::Fall)]
            &&& !descending ==> ends_frame(o, f)
            &&& !descending && check_release && !c.spec_maintain_jump(f) ==> o.fighter.state
                == FighterState::Falling && o.commands == moving + seq![
                Command::PlayAnim(Anim::Fall),
            ]
            &&& !descending && !(check_release && !c.spec_maintain_jump(f)) ==> o.fighter.state
                == f.state && o.commands == moving
        }),
{
}

/// An air dash that has moved on its last frame settles (lands or falls); before that the
/// frame just ends.
pub proof fn lemma_airdash_settles_when_done<C: FighterController>(
    f: Fighter2D,
    c: C,
    anim: AnimationState,
    slide: SlideResult,
)
    requires
        f.wf(),
        f.state == FighterState::AirDash,
        f.resume == Resume::AirDashSlide,
    ensures
        ({
            let o = f.spec_resume(c, anim, Reply::Slid(slide));
            &&& ends_frame(o, f)
            &&& o.controller == c
            &&& f.dash_frames_remaining == 0 ==> settles(
                o.fighter,
                o.commands,
                f,
                slide,
                c.spec_horizontal(f),
            )
            &&& f.dash_frames_remaining > 0 ==> o.fighter.state == FighterState::AirDash
                && o.commands == Seq::<Command>::empty()
        }),
{
}

/// A ground dash that has moved on its last frame settles; before that it asks whether it
/// has slowed to walk speed, and settles once it has.
pub proof fn lemma_ground_dash_settles<C: FighterController>(
    f: Fighter2D,
    c: C,
    anim: AnimationState,
    slide: SlideResult,
    slowed: bool,
)
    requires
        f.wf(),
        f.state == FighterState::GroundDash,
    ensures
        f.resume == Resume::GroundDashSlide ==> ({
            let o = f.spec_resume(c, anim, Reply::Slid(slide));
            &&& o.controller == c
            &&& f.dash_frames_remaining == 0 ==> ends_frame(o, f) && settles(
                o.fighter,
                o.commands,
                f,
                slide,
                c.spec_horizontal(f),
            )
            &&& f.dash_frames_remaining > 0 ==> o.next == Next::Ask(Query::DashSlowed)
                && o.fighter.state == FighterState::GroundDash && o.commands
                == Seq::<Command>::empty()
        }),
        f.resume == (Resume::GroundDashSlowed { slide }) ==> ({
            let o = f.spec_resume(c, anim, Reply::Flag(slowed));
            &&& o.controller == c
            &&& ends_frame(o, f)
            &&& slowed ==> settles(o.fighter, o.commands, f, slide, c.spec_horizontal(f))
            &&& !slowed ==> o.fighter.state == FighterState::GroundDash && o.commands
                == Seq::<Command>::empty()
        }),
{
}

/// Hitstun uses up one frame (never below zero), damps the knockback and falls; once moved,
/// it settles when its frames have run out and otherwise goes on.
pub proof fn lemma_hitstun_steps<C: FighterController>(
    f: Fighter2D,
    c: C,
    anim: AnimationState,
    slide: SlideResult,
)
    requires
        f.wf(),
        f.state == FighterState::HitStun,
    ensures
        f.resume == Resume::Idle ==> ({
            let o = first_step(f, c, anim);
            &&& o.controller == c
            &&& o.next == Next::Ask(Query::Slide)
            &&& o.fighter.resume == Resume::HitStunSlide
            &&& o.fighter.state == FighterState::HitStun
            &&& o.fighter.hitstun_frames_remaining == spec_tick_iframes(f.hitstun_frames_remaining)
            &&& o.commands == seq![Command::KnockbackDamping, Command::Gravity]
        }),
        f.resume == Resume::HitStunSlide ==> ({
            let o = f.spec_resume(c, anim, Reply::Slid(slide));
            &&& o.controller == c
            &&& ends_frame(o, f)
            &&& f.hitstun_frames_remaining == 0 ==> settles(
                o.fighter,
                o.commands,
                f,
                slide,
                c.spec_horizontal(f),
            )
            &&& f.hitstun_frames_remaining > 0 ==> o.fighter.state == FighterState::HitStun
                && o.commands == Seq::<Command>::empty()
        }),
{
}

/// An aerial attack without contact that is not cancelled steers and falls; having moved it
/// is damped, and on a floor it stands or walks (its animation is then looked at once
/// more); in the air it settles when its animation is over and otherwise goes on.
pub proof fn lemma_air_attack_moves_and_lands<C: FighterController>(
    f: Fighter2D,
    c: C,
    anim: AnimationState,
    slide: SlideResult,
)
    requires
        f.wf(),
        is_air_attack(f.state),
        f.resume == Resume::AerialSlide,
    ensures
        ({
            let o = f.spec_resume(c, anim, Reply::Slid(slide));
            let h = c.spec_horizontal(f);
            &&& o.controller == c
            &&& o.commands.len() >= 1 && o.commands[0] == Command::AirDamping
            &&& slide.collided && slide.on_floor ==> o.next == Next::Continue
                && o.fighter.resume == (Resume::AerialLanded { slide }) && settles(
                o.fighter,
                o.commands.drop_first(),
                f,
                slide,
                h,
            )
            &&& !(slide.collided && slide.on_floor) ==> ends_frame(o, f)
            &&& !(slide.collided && slide.on_floor) && anim.anim_finished ==> settles(
                o.fighter,
                o.commands.drop_first(),
                f,
                slide,
                h,
            )
            &&& !(slide.collided && slide.on_floor) && !anim.anim_finished ==> o.fighter.state
                == f.state && o.commands == seq![Command::AirDamping]
        }),
{
    let o = f.spec_resume(c, anim, Reply::Slid(slide));
    assert(o.commands.drop_first() =~= o.commands.subrange(1, o.commands.len() as int));
    if slide.collided && slide.on_floor {
        assert(o.commands.drop_first() =~= f.spec_enter_standing_or_walking(c.spec_horizontal(f)).1);
    } else if anim.anim_finished {
        assert(o.commands.drop_first() =~= f.spec_enter_falling().1);
    } else {
        assert(o.commands =~= seq![Command::AirDamping]);
    }
}

/// The first frame of a fighter starts it falling.
pub proof fn lemma_first_frame_falls<C: FighterController>(f: Fighter2D, c: C, anim: AnimationState)
    requires
        f.wf(),
        f.state == FighterState::Init,
        f.resume == Resume::Idle,
    ensures
        ({
            let o = first_step(f, c, anim);
            &&& goes_on_in(o, FighterState::Falling)
            &&& !o.fighter.fastfall
            &&& o.commands == seq![Command::PlayAnim(Anim::Fall)]
            &&& o.controller == c
        }),
{
}

/// An aerial attack that is not cancelled leaves the offered action in place; without
/// contact it steers with the held input, falls and asks how it moved; after contact it
/// hangs in the air, settling (here: falling) only when its animation is over.
pub proof fn lemma_air_attack_hangs_after_contact<C: FighterController>(
    f: Fighter2D,
    c: C,
    anim: AnimationState,
)
    requires
        f.wf(),
        f.resume == Resume::Idle,
        is_air_attack(f.state),
        !(f.attack_contact || anim.cancellable || anim.anim_finished) || c.spec_action(f) is None,
    ensures
        ({
            let o = first_step(f, c, anim);
            let air = SlideResult { collided: false, on_floor: false };
            &&& o.controller == c
            &&& !f.attack_contact ==> o.next == Next::Ask(Query::Slide) && o.fighter.resume
                == Resume::AerialSlide && o.fighter.state == f.state && o.commands == seq![
                Command::WalkInputPreserving(c.spec_horizontal(f)),
                Command::Gravity,
            ]
            &&& f.attack_contact ==> ends_frame(o, f)
            &&& f.attack_contact && anim.anim_finished ==> settles(
                o.fighter,
                o.commands,
                f,
                air,
                c.spec_horizontal(f),
            )
            &&& f.attack_contact && !anim.anim_finished ==> o.fighter.state == f.state
                && o.commands == Seq::<Command>::empty()
        }),
{
}

} // verus!
