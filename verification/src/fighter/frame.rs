use vstd::prelude::*;

use crate::fighter::moves::{Entered, is_attack, reaches};
use crate::fighter::{
    AnimationState, Command, Fighter2D, FighterState, Next, Query, Reply, Resume, SlideResult,
    Step, is_dash,
};
use crate::input::{Action, AxisDir, FighterController};

verus! {

/// The result of one step of a frame: the fighter and its controller afterwards, the
/// commands for the body, and how the frame goes on.
pub struct Outcome<C> {
    pub fighter: Fighter2D,
    pub controller: C,
    pub commands: Seq<Command>,
    pub next: Next,
}

/// Whether an executed step produced exactly the outcome `o`.
pub open spec fn realizes<C>(o: Outcome<C>, f: Fighter2D, c: C, step: Step) -> bool {
    &&& o.fighter == f
    &&& o.controller == c
    &&& o.commands =~= step.commands@
    &&& o.next == step.next
}

/// One frame less of invincibility, never below zero.
pub open spec fn spec_tick_iframes(iframes: u32) -> u32 {
    if iframes == 0 {
        0
    } else {
        (iframes - 1) as u32
    }
}

/// The frame goes on with the routine of state `p`, after the commands `pre` and the
/// transition `e`.
pub open spec fn spec_continue<C>(c: C, pre: Seq<Command>, e: Entered, p: FighterState) -> Outcome<C> {
    Outcome {
        fighter: Fighter2D { resume: Resume::Process(p), ..e.0 },
        controller: c,
        commands: pre + e.1,
        next: Next::Continue,
    }
}

/// The frame ends: no frame is under way any more, and one invincibility frame is used up.
pub open spec fn spec_done<C>(c: C, f: Fighter2D, cmds: Seq<Command>) -> Outcome<C> {
    Outcome {
        fighter: Fighter2D {
            resume: Resume::Idle,
            iframes_remaining: spec_tick_iframes(f.iframes_remaining),
            ..f
        },
        controller: c,
        commands: cmds,
        next: Next::Done,
    }
}

/// The frame waits at `at` for the answer to `q`.
pub open spec fn spec_ask<C>(c: C, f: Fighter2D, at: Resume, cmds: Seq<Command>, q: Query) -> Outcome<C> {
    Outcome { fighter: Fighter2D { resume: at, ..f }, controller: c, commands: cmds, next: Next::Ask(q) }
}

/// The routine that enters the state `target` reached by a cancel or a ground action.
pub open spec fn spec_enter_target(f: Fighter2D, target: FighterState) -> Entered {
    if target == FighterState::Jumping {
        f.spec_enter_jumping()
    } else if target == FighterState::GroundDash {
        f.spec_enter_ground_dash()
    } else if target == FighterState::AirDash {
        f.spec_enter_airdash()
    } else if target == FighterState::AirJump {
        f.spec_enter_airjump()
    } else {
        f.spec_enter_attack(target)
    }
}

/// Which state a grounded attack `kind` cancels into on `action`, if it can.
///
/// The ground heavy and the launcher cancel into a jump or a ground dash like the light
/// string; the stinger, rising slash, dive kick and helm breaker have no cancels. For the
/// ground heavy, stinger, rising slash, dive kick and helm breaker this is an assumption: no
/// routine of their own is defined for them, so they play out as grounded attacks.
pub open spec fn spec_ground_cancel(kind: FighterState, action: Action) -> Option<FighterState> {
    match (kind, action) {
        (FighterState::AttackGroundLight1, Action::AttackLight) => Some(FighterState::AttackGroundLight2),
        (FighterState::AttackGroundLight2, Action::AttackLight) => Some(FighterState::AttackGroundLight3),
        (FighterState::AttackGroundLight1, Action::AttackHeavy)
        | (FighterState::AttackGroundLight2, Action::AttackHeavy)
        | (FighterState::AttackGroundLight3, Action::AttackHeavy) => Some(FighterState::AttackGroundHeavy),
        (FighterState::AttackGroundLight1, Action::Jump)
        | (FighterState::AttackGroundLight2, Action::Jump)
        | (FighterState::AttackGroundLight3, Action::Jump)
        | (FighterState::AttackGroundHeavy, Action::Jump)
        | (FighterState::AttackLauncher, Action::Jump) => Some(FighterState::Jumping),
        (FighterState::AttackGroundLight1, Action::Dash)
        | (FighterState::AttackGroundLight2, Action::Dash)
        | (FighterState::AttackGroundLight3, Action::Dash)
        | (FighterState::AttackGroundHeavy, Action::Dash)
        | (FighterState::AttackLauncher, Action::Dash) => Some(FighterState::GroundDash),
        _ => None,
    }
}

/// Which state an aerial attack `kind` cancels into on `action`, if it can; a jump cancel
/// needs an air jump left, a dash cancel an air jump and an airdash.
pub open spec fn spec_aerial_cancel(kind: FighterState, action: Action, jumps: u32, airdashes: u32) -> Option<FighterState> {
    match (kind, action) {
        (FighterState::AttackAirLight1, Action::AttackLight) => Some(FighterState::AttackAirLight2),
        (FighterState::AttackAirLight2, Action::AttackLight) => Some(FighterState::AttackAirLight3),
        (FighterState::AttackAirLight1, Action::AttackHeavy)
        | (FighterState::AttackAirLight2, Action::AttackHeavy)
        | (FighterState::AttackAirLight3, Action::AttackHeavy) => Some(FighterState::AttackAirHeavy),
        (_, Action::Jump) => if jumps >= 1 { Some(FighterState::AirJump) } else { None },
        (_, Action::Dash) => if jumps >= 1 && airdashes >= 1 {
            Some(FighterState::AirDash)
        } else {
            None
        },
        _ => None,
    }
}

/// The attack states that play out in the air, steered and pulled down by gravity.
pub open spec fn is_aerial_attack(s: FighterState) -> bool {
    s == FighterState::AttackAirLight1 || s == FighterState::AttackAirLight2 || s
        == FighterState::AttackAirLight3 || s == FighterState::AttackAirHeavy
}

impl Fighter2D {
    /// The start of the frame in the initial state: start falling.
    pub open spec fn spec_init<C: FighterController>(self, c: C) -> Outcome<C> {
        spec_continue(c, Seq::empty(), self.spec_enter_falling(), FighterState::Falling)
    }

    /// Standing: the taken action decides; without one, horizontal input starts a walk.
    pub open spec fn spec_standing<C: FighterController>(self, c: C) -> Outcome<C> {
        let a = c.spec_action(self);
        let c1 = c.spec_consumed(self);
        match a {
            Some(Action::Jump) => spec_continue(
                c1,
                Seq::empty(),
                self.spec_enter_jumping(),
                FighterState::Jumping,
            ),
            Some(Action::AttackLight) => spec_continue(
                c1,
                Seq::empty(),
                self.spec_enter_attack(FighterState::AttackGroundLight1),
                FighterState::AttackGroundLight1,
            ),
            Some(Action::AttackHeavy) => spec_continue(
                c1,
                Seq::empty(),
                self.spec_enter_attack(FighterState::AttackGroundHeavy),
                FighterState::AttackGroundHeavy,
            ),
            _ => if c1.spec_horizontal(self) != AxisDir::Neutral {
                spec_continue(c1, Seq::empty(), self.spec_enter_walking(), FighterState::Walk)
            } else {
                spec_done(c1, self, Seq::empty())
            },
        }
    }

    /// Walking: without input stand; else face the input, take an action, or walk on.
    pub open spec fn spec_walking<C: FighterController>(self, c: C) -> Outcome<C> {
        let input = c.spec_horizontal(self);
        if input == AxisDir::Neutral {
            spec_continue(c, Seq::empty(), self.spec_enter_standing(), FighterState::Stand)
        } else {
            let (f1, k1) = self.spec_update_facing(input);
            let a = c.spec_action(f1);
            let c1 = c.spec_consumed(f1);
            match a {
                Some(Action::Jump) => spec_continue(c1, k1, f1.spec_enter_jumping(), FighterState::Jumping),
                Some(Action::Dash) => spec_continue(
                    c1,
                    k1,
                    f1.spec_enter_ground_dash(),
                    FighterState::GroundDash,
                ),
                Some(Action::AttackLight) => spec_continue(
                    c1,
                    k1,
                    f1.spec_enter_attack(FighterState::AttackGroundLight1),
                    FighterState::AttackGroundLight1,
                ),
                Some(Action::AttackHeavy) => spec_continue(
                    c1,
                    k1,
                    f1.spec_enter_attack(FighterState::AttackGroundHeavy),
                    FighterState::AttackGroundHeavy,
                ),
                None => spec_done(
                    c1,
                    f1,
                    k1 + seq![
                        Command::WalkInput(c1.spec_horizontal(f1)),
                        Command::HaltVertical,
                        Command::MoveAndSlide,
                    ],
                ),
            }
        }
    }

    /// The airborne choices shared by jumps and falls: attacks, and an air dash while an
    /// air jump and an airdash are left and the stick is held sideways.
    pub open spec fn spec_air_choice(self, a: Option<Action>, move_input: AxisDir) -> Option<FighterState> {
        match a {
            Some(Action::AttackLight) => Some(FighterState::AttackAirLight1),
            Some(Action::AttackHeavy) => Some(FighterState::AttackAirHeavy),
            Some(Action::Dash) => if self.jumps_remaining >= 1 && self.airdashes_remaining >= 1
                && move_input != AxisDir::Neutral {
                Some(FighterState::AirDash)
            } else {
                None
            },
            _ => None,
        }
    }

    /// Rising from a jump (`check_release`) or an air jump: face the input, take an airborne
    /// action, or apply gravity and ask whether the rise is over.
    pub open spec fn spec_jumping<C: FighterController>(self, c: C, check_release: bool) -> Outcome<C> {
        let mi = c.spec_horizontal(self);
        let (f1, k1) = self.spec_update_facing(mi);
        let a = c.spec_action(f1);
        match f1.spec_air_choice(a, mi) {
            Some(t) => spec_continue(c.spec_consumed(f1), k1, spec_enter_target(f1, t), t),
            None => spec_ask(
                c,
                f1,
                Resume::Rising { check_release },
                k1 + seq![Command::Gravity],
                Query::Descending,
            ),
        }
    }

    /// The rest of a rising frame: falling once the rise is over, else steer, move, damp, and
    /// after a jump start falling when the jump is released.
    pub open spec fn spec_rising<C: FighterController>(self, c: C, check_release: bool, descending: bool) -> Outcome<C> {
        if descending {
            spec_continue(c, Seq::empty(), self.spec_enter_falling(), FighterState::Falling)
        } else {
            let cmds = seq![
                Command::WalkInputPreserving(c.spec_horizontal(self)),
                Command::MoveAndSlide,
                Command::AirDamping,
            ];
            if check_release && !c.spec_maintain_jump(self) {
                let (f2, k2) = self.spec_enter_falling();
                spec_done(c, f2, cmds + k2)
            } else {
                spec_done(c, self, cmds)
            }
        }
    }

    /// Falling: face the input, take an airborne action or an air jump, or else fastfall if
    /// asked, steer, fall and move.
    pub open spec fn spec_falling<C: FighterController>(self, c: C) -> Outcome<C> {
        let mi = c.spec_horizontal(self);
        let (f1, k1) = self.spec_update_facing(mi);
        let a = c.spec_action(f1);
        match f1.spec_air_choice(a, mi) {
            Some(t) => spec_continue(c.spec_consumed(f1), k1, spec_enter_target(f1, t), t),
            None => if a == Some(Action::Jump) && f1.jumps_remaining >= 1 {
                spec_continue(
                    c.spec_consumed(f1),
                    k1,
                    f1.spec_enter_airjump(),
                    FighterState::AirJump,
                )
            } else {
                let f2 = if !f1.fastfall && c.spec_wants_fastfall(f1) {
                    Fighter2D { fastfall: true, ..f1 }
                } else {
                    f1
                };
                spec_ask(
                    c,
                    f2,
                    Resume::FallSlide { move_input: mi },
                    k1 + seq![
                        Command::WalkInputPreserving(c.spec_horizontal(f2)),
                        if f2.fastfall {
                            Command::FastfallVelocity
                        } else {
                            Command::Gravity
                        },
                    ],
                    Query::Slide,
                )
            },
        }
    }

    /// The rest of a falling frame: land on a floor, then damp.
    pub open spec fn spec_fall_slide<C: FighterController>(self, c: C, move_input: AxisDir, slide: SlideResult) -> Outcome<C> {
        if slide.collided && slide.on_floor {
            let (f2, k2) = self.spec_enter_standing_or_walking(move_input);
            spec_done(c, f2, k2 + seq![Command::AirDamping])
        } else {
            spec_done(c, self, seq![Command::AirDamping])
        }
    }

    /// An air dash: one frame less; the taken action is dropped; fall when the dash is let
    /// go, else move.
    pub open spec fn spec_airdash<C: FighterController>(self, c: C) -> Outcome<C> {
        let f1 = Fighter2D { dash_frames_remaining: (self.dash_frames_remaining - 1) as u32, ..self };
        let c1 = c.spec_consumed(f1);
        if !c1.spec_maintain_dash(f1) {
            spec_continue(c1, Seq::empty(), f1.spec_enter_falling(), FighterState::Falling)
        } else {
            spec_ask(c1, f1, Resume::AirDashSlide, Seq::empty(), Query::Slide)
        }
    }

    /// The rest of an air dash frame: when its frames are used up, land or fall.
    pub open spec fn spec_airdash_slide<C: FighterController>(self, c: C, slide: SlideResult) -> Outcome<C> {
        if self.dash_frames_remaining == 0 {
            let (f2, k2) = self.spec_enter_standing_walking_or_falling(slide, c.spec_horizontal(self));
            spec_done(c, f2, k2)
        } else {
            spec_done(c, self, Seq::empty())
        }
    }

    /// A ground dash: one frame less; a jump action jumps; when the dash is let go the fighter
    /// stands or walks and goes on with that routine in the same frame; else damp and move.
    pub open spec fn spec_ground_dash<C: FighterController>(self, c: C) -> Outcome<C> {
        let f1 = Fighter2D { dash_frames_remaining: (self.dash_frames_remaining - 1) as u32, ..self };
        let a = c.spec_action(f1);
        let c1 = c.spec_consumed(f1);
        if a == Some(Action::Jump) {
            spec_continue(c1, Seq::empty(), f1.spec_enter_jumping(), FighterState::Jumping)
        } else if !c1.spec_maintain_dash(f1) {
            let e = f1.spec_enter_standing_or_walking(c1.spec_horizontal(f1));
            spec_continue(c1, Seq::empty(), e, e.0.state)
        } else {
            spec_ask(c1, f1, Resume::GroundDashSlide, seq![Command::DashDamping], Query::Slide)
        }
    }

    /// After a ground dash moved: when its frames are used up it ends; else ask whether it
    /// has slowed to walk speed.
    pub open spec fn spec_ground_dash_slide<C: FighterController>(self, c: C, slide: SlideResult) -> Outcome<C> {
        if self.dash_frames_remaining == 0 {
            let (f2, k2) = self.spec_enter_standing_walking_or_falling(slide, c.spec_horizontal(self));
            spec_done(c, f2, k2)
        } else {
            spec_ask(c, self, Resume::GroundDashSlowed { slide }, Seq::empty(), Query::DashSlowed)
        }
    }

    /// A ground dash that has slowed to walk speed ends.
    pub open spec fn spec_ground_dash_slowed<C: FighterController>(self, c: C, slide: SlideResult, slowed: bool) -> Outcome<C> {
        if slowed {
            let (f2, k2) = self.spec_enter_standing_walking_or_falling(slide, c.spec_horizontal(self));
            spec_done(c, f2, k2)
        } else {
            spec_done(c, self, Seq::empty())
        }
    }

    /// Hitstun: one frame less, damp the knockback, fall and move.
    pub open spec fn spec_hitstun<C: FighterController>(self, c: C) -> Outcome<C> {
        let f1 = Fighter2D {
            hitstun_frames_remaining: spec_tick_iframes(self.hitstun_frames_remaining),
            ..self
        };
        spec_ask(
            c,
            f1,
            Resume::HitStunSlide,
            seq![Command::KnockbackDamping, Command::Gravity],
            Query::Slide,
        )
    }

    /// The rest of a hitstun frame: when its frames are used up, land or fall.
    pub open spec fn spec_hitstun_slide<C: FighterController>(self, c: C, slide: SlideResult) -> Outcome<C> {
        if self.hitstun_frames_remaining == 0 {
            let (f2, k2) = self.spec_enter_standing_walking_or_falling(slide, c.spec_horizontal(self));
            spec_done(c, f2, k2)
        } else {
            spec_done(c, self, Seq::empty())
        }
    }

    /// A grounded attack: cancel into its follow-ups while it may be cancelled; when its
    /// animation is over, stand or walk.
    pub open spec fn spec_ground_attack<C: FighterController>(self, c: C, anim: AnimationState, kind: FighterState) -> Outcome<C> {
        let a = c.spec_action(self);
        let target = if self.spec_can_cancel_attack(anim) && a is Some {
            spec_ground_cancel(kind, a->0)
        } else {
            None
        };
        match target {
            Some(t) => spec_continue(c.spec_consumed(self), Seq::empty(), spec_enter_target(self, t), t),
            None => if anim.anim_finished {
                let (f2, k2) = self.spec_enter_standing_or_walking(c.spec_horizontal(self));
                spec_done(c, f2, k2)
            } else {
                spec_done(c, self, Seq::empty())
            },
        }
    }

    /// The routine that a cancel into `t` runs next: an air jump out of an attack rises
    /// like a jump.
    pub open spec fn spec_cancel_routine(t: FighterState) -> FighterState {
        if t == FighterState::AirJump {
            FighterState::Jumping
        } else {
            t
        }
    }

    /// An aerial attack: cancel into its follow-ups while it may be cancelled; without
    /// contact steer and fall; land on a floor; when its animation is over, land or fall.
    pub open spec fn spec_aerial_attack<C: FighterController>(self, c: C, anim: AnimationState, kind: FighterState) -> Outcome<C> {
        let a = c.spec_action(self);
        let target = if self.spec_can_cancel_attack(anim) && a is Some {
            spec_aerial_cancel(kind, a->0, self.jumps_remaining, self.airdashes_remaining)
        } else {
            None
        };
        match target {
            Some(t) => spec_continue(
                c.spec_consumed(self),
                Seq::empty(),
                spec_enter_target(self, t),
                Self::spec_cancel_routine(t),
            ),
            None => if !self.attack_contact {
                spec_ask(
                    c,
                    self,
                    Resume::AerialSlide,
                    seq![Command::WalkInputPreserving(c.spec_horizontal(self)), Command::Gravity],
                    Query::Slide,
                )
            } else {
                self.spec_aerial_end(c, anim, SlideResult { collided: false, on_floor: false })
            },
        }
    }

    /// The end of an aerial attack frame: when the animation is over, land or fall.
    pub open spec fn spec_aerial_end<C: FighterController>(self, c: C, anim: AnimationState, slide: SlideResult) -> Outcome<C> {
        if anim.anim_finished {
            let (f2, k2) = self.spec_enter_standing_walking_or_falling(slide, c.spec_horizontal(self));
            spec_done(c, f2, k2)
        } else {
            spec_done(c, self, Seq::empty())
        }
    }

    /// After an aerial attack moved: damp; landing on a floor stands or walks (and the
    /// animation is looked at anew); else the frame ends as usual.
    pub open spec fn spec_aerial_slide<C: FighterController>(self, c: C, anim: AnimationState, slide: SlideResult) -> Outcome<C> {
        if slide.collided && slide.on_floor {
            let (f2, k2) = self.spec_enter_standing_or_walking(c.spec_horizontal(self));
            Outcome {
                fighter: Fighter2D { resume: Resume::AerialLanded { slide }, ..f2 },
                controller: c,
                commands: seq![Command::AirDamping] + k2,
                next: Next::Continue,
            }
        } else {
            let o = self.spec_aerial_end(c, anim, slide);
            Outcome { commands: seq![Command::AirDamping] + o.commands, ..o }
        }
    }

    /// The routine that runs in each state. The stinger, rising slash, dive kick and helm
    /// breaker, which have no routine of their own, are assumed to run the grounded attack
    /// routine (see `spec_ground_cancel`).
    pub open spec fn spec_process<C: FighterController>(self, c: C, anim: AnimationState, s: FighterState) -> Outcome<C> {
        match s {
            FighterState::Init => self.spec_init(c),
            FighterState::Stand => self.spec_standing(c),
            FighterState::Walk => self.spec_walking(c),
            FighterState::GroundDash => self.spec_ground_dash(c),
            FighterState::AirDash => self.spec_airdash(c),
            FighterState::Jumping => self.spec_jumping(c, true),
            FighterState::AirJump => self.spec_jumping(c, false),
            FighterState::Falling => self.spec_falling(c),
            FighterState::HitStun => self.spec_hitstun(c),
            FighterState::AttackAirLight1 | FighterState::AttackAirLight2
            | FighterState::AttackAirLight3 | FighterState::AttackAirHeavy => self.spec_aerial_attack(
                c,
                anim,
                s,
            ),
            _ => self.spec_ground_attack(c, anim, s),
        }
    }

    /// One step of a frame: from where the frame stands, with the current animation flags
    /// and the answer to the last query.
    pub open spec fn spec_resume<C: FighterController>(self, c: C, anim: AnimationState, reply: Reply) -> Outcome<C> {
        match self.resume {
            Resume::Idle => self.spec_process(c, anim, self.state),
            Resume::Process(s) => self.spec_process(c, anim, s),
            Resume::Rising { check_release } => self.spec_rising(c, check_release, reply->Flag_0),
            Resume::FallSlide { move_input } => self.spec_fall_slide(c, move_input, reply->Slid_0),
            Resume::AirDashSlide => self.spec_airdash_slide(c, reply->Slid_0),
            Resume::GroundDashSlide => self.spec_ground_dash_slide(c, reply->Slid_0),
            Resume::GroundDashSlowed { slide } => self.spec_ground_dash_slowed(c, slide, reply->Flag_0),
            Resume::HitStunSlide => self.spec_hitstun_slide(c, reply->Slid_0),
            Resume::AerialSlide => self.spec_aerial_slide(c, anim, reply->Slid_0),
            Resume::AerialLanded { slide } => self.spec_aerial_end(c, anim, slide),
        }
    }
}

/// Every step of a frame keeps the fighter's invariant: the fighter never has more air
/// jumps left than it is allowed, and a dash always has a frame left to run when it is
/// processed.
pub proof fn lemma_resume_keeps_wf<C: FighterController>(
    f: Fighter2D,
    c: C,
    anim: AnimationState,
    reply: Reply,
)
    requires
        f.wf(),
        f.resume.accepts(reply),
    ensures
        f.spec_resume(c, anim, reply).fighter.wf(),
{
    let s = match f.resume {
        Resume::Idle => f.state,
        Resume::Process(s) => s,
        _ => f.state,
    };
    match f.resume {
        Resume::Idle | Resume::Process(_) => {
            lemma_process_keeps_wf(f, c, anim, s);
        },
        _ => {},
    }
}

/// Each state's routine keeps the invariant.
pub proof fn lemma_process_keeps_wf<C: FighterController>(
    f: Fighter2D,
    c: C,
    anim: AnimationState,
    s: FighterState,
)
    requires
        f.wf(),
        is_dash(s) ==> f.dash_frames_remaining >= 1,
        f.resume is Idle || f.resume is Process,
    ensures
        f.spec_process(c, anim, s).fighter.wf(),
{
    match s {
        FighterState::Init => {},
        FighterState::Stand => {},
        FighterState::Walk => {},
        FighterState::GroundDash => {},
        FighterState::AirDash => {},
        FighterState::Jumping => {},
        FighterState::AirJump => {},
        FighterState::Falling => {},
        FighterState::HitStun => {},
        FighterState::AttackAirLight1 | FighterState::AttackAirLight2
        | FighterState::AttackAirLight3 | FighterState::AttackAirHeavy => {
            lemma_aerial_attack_keeps_wf(f, c, anim, s);
        },
        _ => {},
    }
}

/// The reply that a query is answered with.
pub open spec fn answers(q: Query, reply: Reply) -> bool {
    match q {
        Query::Slide => reply is Slid,
        Query::Descending | Query::DashSlowed => reply is Flag,
    }
}

/// A step that ends the frame uses up exactly one invincibility frame and leaves the fighter
/// idle; any other step keeps the invincibility frames and leaves a frame under way.
pub open spec fn spec_ticks_once_per_frame<C>(f: Fighter2D, o: Outcome<C>) -> bool {
    &&& o.next is Done ==> o.fighter.iframes_remaining
        == spec_tick_iframes(f.iframes_remaining) && o.fighter.resume is Idle
    &&& !(o.next is Done) ==> o.fighter.iframes_remaining
        == f.iframes_remaining && !(o.fighter.resume is Idle)
}

/// After a step the frame stands where its next routine or the answer to its query is due.
pub open spec fn spec_waits_as_asked<C>(o: Outcome<C>) -> bool {
    &&& o.next is Continue ==> (o.fighter.resume is Process || o.fighter.resume is AerialLanded)
    &&& o.next == Next::Ask(Query::Slide) ==> (o.fighter.resume is FallSlide
        || o.fighter.resume is AirDashSlide || o.fighter.resume is GroundDashSlide
        || o.fighter.resume is HitStunSlide || o.fighter.resume is AerialSlide)
    &&& (o.next == Next::Ask(Query::Descending) || o.next == Next::Ask(Query::DashSlowed))
        ==> (o.fighter.resume is Rising || o.fighter.resume is GroundDashSlowed)
}

/// A step always leaves the frame waiting for what it asked: after a query the fighter
/// accepts exactly that query's answer, and otherwise it accepts no reply.
pub proof fn lemma_step_waits_for_its_query<C: FighterController>(
    f: Fighter2D,
    c: C,
    anim: AnimationState,
    reply: Reply,
    next_reply: Reply,
)
    requires
        f.wf(),
        f.resume.accepts(reply),
    ensures
        ({
            let o = f.spec_resume(c, anim, reply);
            match o.next {
                Next::Ask(q) => o.fighter.resume.accepts(next_reply) <==> answers(q, next_reply),
                _ => o.fighter.resume.accepts(next_reply) <==> next_reply is Nothing,
            }
        }),
{
    lemma_resume_facts(f, c, anim, reply);
}

/// Invincibility frames run down by exactly one per frame: only the step that ends a frame
/// spends one, and it leaves the fighter idle.
pub proof fn lemma_iframes_tick_per_frame<C: FighterController>(
    f: Fighter2D,
    c: C,
    anim: AnimationState,
    reply: Reply,
)
    requires
        f.wf(),
        f.resume.accepts(reply),
    ensures
        spec_ticks_once_per_frame(f, f.spec_resume(c, anim, reply)),
{
    lemma_resume_facts(f, c, anim, reply);
}

/// A whole frame spends exactly one invincibility frame (none below zero): over a run of
/// steps that starts with the fighter idle and leaves it idle again only at its end.
pub proof fn lemma_frame_spends_one_iframe<C: FighterController>(
    fs: Seq<Fighter2D>,
    cs: Seq<C>,
    anims: Seq<AnimationState>,
    replies: Seq<Reply>,
)
    requires
        is_step_run(fs, cs, anims, replies),
        fs.len() >= 2,
        fs[0].wf(),
        fs[0].resume is Idle,
        fs.last().resume is Idle,
        forall|k: int| 0 < k < fs.len() - 1 ==> !(#[trigger] fs[k].resume is Idle),
    ensures
        fs.last().iframes_remaining == spec_tick_iframes(fs[0].iframes_remaining),
{
    let n = fs.len() - 2;
    lemma_iframes_along_frame(fs, cs, anims, replies, n as nat);
    assert(fs[n].resume.accepts(replies[n]));
    lemma_resume_facts(fs[n], cs[n], anims[n], replies[n]);
}

/// Within a frame, every step before the last keeps the invincibility frames.
proof fn lemma_iframes_along_frame<C: FighterController>(
    fs: Seq<Fighter2D>,
    cs: Seq<C>,
    anims: Seq<AnimationState>,
    replies: Seq<Reply>,
    n: nat,
)
    requires
        is_step_run(fs, cs, anims, replies),
        fs[0].wf(),
        forall|k: int| 0 < k < fs.len() - 1 ==> !(#[trigger] fs[k].resume is Idle),
        n < fs.len() - 1,
    ensures
        fs[n as int].wf(),
        fs[n as int].iframes_remaining == fs[0].iframes_remaining,
    decreases n,
{
    if n > 0 {
        let k = n - 1;
        lemma_iframes_along_frame(fs, cs, anims, replies, k as nat);
        assert(fs[k].resume.accepts(replies[k]));
        assert(!(fs[n as int].resume is Idle));
        lemma_resume_keeps_wf(fs[k], cs[k], anims[k], replies[k]);
        lemma_resume_facts(fs[k], cs[k], anims[k], replies[k]);
    }
}

/// The facts about one step that the laws above rest on.
proof fn lemma_resume_facts<C: FighterController>(
    f: Fighter2D,
    c: C,
    anim: AnimationState,
    reply: Reply,
)
    requires
        f.wf(),
        f.resume.accepts(reply),
    ensures
        spec_ticks_once_per_frame(f, f.spec_resume(c, anim, reply)),
        spec_waits_as_asked(f.spec_resume(c, anim, reply)),
{
    match f.resume {
        Resume::Idle => lemma_process_facts(f, c, anim, f.state),
        Resume::Process(s) => lemma_process_facts(f, c, anim, s),
        _ => {},
    }
}

proof fn lemma_process_facts<C: FighterController>(
    f: Fighter2D,
    c: C,
    anim: AnimationState,
    s: FighterState,
)
    ensures
        spec_ticks_once_per_frame(f, f.spec_process(c, anim, s)),
        spec_waits_as_asked(f.spec_process(c, anim, s)),
{
    match s {
        FighterState::AttackAirLight1 | FighterState::AttackAirLight2
        | FighterState::AttackAirLight3 | FighterState::AttackAirHeavy => {},
        _ => {},
    }
}

/// Hitstun ends exactly when its frames have run out.
pub proof fn lemma_hitstun_ends_when_frames_run_out<C: FighterController>(
    f: Fighter2D,
    c: C,
    anim: AnimationState,
    reply: Reply,
)
    requires
        f.wf(),
        f.resume == Resume::HitStunSlide,
        f.state == FighterState::HitStun,
        f.resume.accepts(reply),
    ensures
        f.spec_resume(c, anim, reply).fighter.state == FighterState::HitStun <==> f.hitstun_frames_remaining
            > 0,
{
}

/// A dash frame uses up one dash frame; once a dash has moved on its last frame it ends.
pub proof fn lemma_dash_frames_count_down<C: FighterController>(
    f: Fighter2D,
    c: C,
    anim: AnimationState,
    reply: Reply,
)
    requires
        f.wf(),
        f.resume.accepts(reply),
    ensures
        ({
            let o = f.spec_resume(c, anim, reply).fighter;
            &&& (f.resume == Resume::Process(FighterState::GroundDash) || f.resume
                == Resume::Process(FighterState::AirDash)) ==> o.dash_frames_remaining + 1
                == f.dash_frames_remaining
            &&& ((f.resume == Resume::GroundDashSlide || f.resume == Resume::AirDashSlide)
                && f.dash_frames_remaining == 0) ==> !is_dash(o.state)
        }),
{
}

/// The states in which a fighter stands on the ground and has its air budgets back.
pub open spec fn is_grounded(s: FighterState) -> bool {
    s == FighterState::Stand || s == FighterState::Walk
}

/// A step from `f` to `o` enters an air jump or an air dash.
pub open spec fn enters_air_move(f: Fighter2D, o: Fighter2D) -> bool {
    o.state != f.state && (o.state == FighterState::AirJump || o.state == FighterState::AirDash)
}

/// A step from `f` to `o` enters an air dash.
pub open spec fn enters_airdash(f: Fighter2D, o: Fighter2D) -> bool {
    o.state != f.state && o.state == FighterState::AirDash
}

/// How one step may change the air budgets: the allowances stay as configured; entering an
/// air jump or an air dash spends exactly one air jump, entering an air dash also exactly one
/// airdash; otherwise a budget only changes by being given back in full on the ground.
pub open spec fn spec_budgets_move(f: Fighter2D, o: Fighter2D) -> bool {
    &&& o.air_jump_count == f.air_jump_count
    &&& o.airdash_count == f.airdash_count
    &&& if enters_air_move(f, o) {
        o.jumps_remaining + 1 == f.jumps_remaining
    } else {
        o.jumps_remaining == f.jumps_remaining || (is_grounded(o.state) && o.jumps_remaining
            == f.air_jump_count)
    }
    &&& if enters_airdash(f, o) {
        o.airdashes_remaining + 1 == f.airdashes_remaining
    } else {
        o.airdashes_remaining == f.airdashes_remaining || (is_grounded(o.state)
            && o.airdashes_remaining == f.airdash_count)
    }
}

/// Every air jump and every air dash spends one air jump, every air dash also one airdash,
/// and nothing else spends them; both are given back in full only by standing or walking on
/// the ground.
pub proof fn lemma_air_budgets_spent_and_restored<C: FighterController>(
    f: Fighter2D,
    c: C,
    anim: AnimationState,
    reply: Reply,
)
    requires
        f.wf(),
        f.resume.accepts(reply),
    ensures
        spec_budgets_move(f, f.spec_resume(c, anim, reply).fighter),
{
    match f.resume {
        Resume::Idle => lemma_process_air_budgets(f, c, anim, f.state),
        Resume::Process(s) => lemma_process_air_budgets(f, c, anim, s),
        _ => {},
    }
}

/// Whether `fs` is a run of steps: each fighter after the first is what resuming the one
/// before it leaves, with the controller, animation flags and reply of that step.
pub open spec fn is_step_run<C: FighterController>(
    fs: Seq<Fighter2D>,
    cs: Seq<C>,
    anims: Seq<AnimationState>,
    replies: Seq<Reply>,
) -> bool {
    &&& fs.len() >= 1
    &&& cs.len() + 1 == fs.len()
    &&& anims.len() + 1 == fs.len()
    &&& replies.len() + 1 == fs.len()
    &&& forall|k: int|
        #![trigger replies[k]]
        0 <= k < fs.len() - 1 ==> fs[k].resume.accepts(replies[k]) && fs[k + 1]
            == fs[k].spec_resume(cs[k], anims[k], replies[k]).fighter
}

/// How many of the first `n` steps of `fs` enter an air jump or an air dash.
pub open spec fn spec_air_moves_in(fs: Seq<Fighter2D>, n: nat) -> nat
    decreases n,
{
    if n == 0 {
        0
    } else {
        spec_air_moves_in(fs, (n - 1) as nat) + if enters_air_move(fs[n - 1], fs[n as int]) {
            1nat
        } else {
            0nat
        }
    }
}

/// How many of the first `n` steps of `fs` enter an air dash.
pub open spec fn spec_airdashes_in(fs: Seq<Fighter2D>, n: nat) -> nat
    decreases n,
{
    if n == 0 {
        0
    } else {
        spec_airdashes_in(fs, (n - 1) as nat) + if enters_airdash(fs[n - 1], fs[n as int]) {
            1nat
        } else {
            0nat
        }
    }
}

/// Between two landings a fighter performs at most as many air jumps and air dashes together
/// as it has air jumps left (so at most `air_jump_count`), and at most as many air dashes as
/// it has airdashes left (so at most `airdash_count`): over any run of steps from a
/// well-formed fighter in which it never stands or walks after the first.
pub proof fn lemma_air_moves_bounded_between_landings<C: FighterController>(
    fs: Seq<Fighter2D>,
    cs: Seq<C>,
    anims: Seq<AnimationState>,
    replies: Seq<Reply>,
)
    requires
        is_step_run(fs, cs, anims, replies),
        fs[0].wf(),
        forall|k: int| 1 <= k < fs.len() ==> !is_grounded(#[trigger] fs[k].state),
    ensures
        spec_air_moves_in(fs, (fs.len() - 1) as nat) <= fs[0].jumps_remaining,
        fs[0].jumps_remaining <= fs[0].air_jump_count,
        spec_airdashes_in(fs, (fs.len() - 1) as nat) <= fs[0].airdashes_remaining,
        fs[0].airdashes_remaining <= fs[0].airdash_count,
{
    lemma_air_budgets_along_run(fs, cs, anims, replies, (fs.len() - 1) as nat);
}

/// Along an airborne run, each budget left plus the moves that spent it is what the run
/// started with.
proof fn lemma_air_budgets_along_run<C: FighterController>(
    fs: Seq<Fighter2D>,
    cs: Seq<C>,
    anims: Seq<AnimationState>,
    replies: Seq<Reply>,
    n: nat,
)
    requires
        is_step_run(fs, cs, anims, replies),
        fs[0].wf(),
        forall|k: int| 1 <= k < fs.len() ==> !is_grounded(#[trigger] fs[k].state),
        n < fs.len(),
    ensures
        fs[n as int].wf(),
        fs[n as int].jumps_remaining + spec_air_moves_in(fs, n) == fs[0].jumps_remaining,
        fs[n as int].airdashes_remaining + spec_airdashes_in(fs, n) == fs[0].airdashes_remaining,
    decreases n,
{
    if n > 0 {
        let k = n - 1;
        lemma_air_budgets_along_run(fs, cs, anims, replies, k as nat);
        assert(fs[k].resume.accepts(replies[k]));
        assert(!is_grounded(fs[n as int].state));
        lemma_resume_keeps_wf(fs[k], cs[k], anims[k], replies[k]);
        lemma_air_budgets_spent_and_restored(fs[k], cs[k], anims[k], replies[k]);
    }
}

proof fn lemma_process_air_budgets<C: FighterController>(
    f: Fighter2D,
    c: C,
    anim: AnimationState,
    s: FighterState,
)
    requires
        s == f.state || (s == FighterState::Jumping && f.state == FighterState::AirJump),
    ensures
        spec_budgets_move(f, f.spec_process(c, anim, s).fighter),
{
    match s {
        FighterState::AttackAirLight1 | FighterState::AttackAirLight2
        | FighterState::AttackAirLight3 | FighterState::AttackAirHeavy => {},
        _ => {},
    }
}

/// An aerial attack's routine keeps the invariant.
proof fn lemma_aerial_attack_keeps_wf<C: FighterController>(
    f: Fighter2D,
    c: C,
    anim: AnimationState,
    s: FighterState,
)
    requires
        f.wf(),
        f.resume is Idle || f.resume is Process,
        is_aerial_attack(s),
    ensures
        f.spec_aerial_attack(c, anim, s).fighter.wf(),
{
}

impl Fighter2D {
    /// Ends the frame: one invincibility frame less.
    fn finish(&mut self) -> (r: Next)
        ensures
            *final(self) == (Fighter2D {
                resume: Resume::Idle,
                iframes_remaining: spec_tick_iframes(old(self).iframes_remaining),
                ..*old(self)
            }),
            r == Next::Done,
    {
        self.resume = Resume::Idle;
        if self.iframes_remaining > 0 {
            self.iframes_remaining = self.iframes_remaining - 1;
        }
        Next::Done
    }

    /// Goes on with the routine of `p`.
    fn go_on(&mut self, p: FighterState) -> (r: Next)
        ensures
            *final(self) == (Fighter2D { resume: Resume::Process(p), ..*old(self) }),
            r == Next::Continue,
    {
        self.resume = Resume::Process(p);
        Next::Continue
    }

    /// Waits at `at` for the answer to `q`.
    fn wait(&mut self, at: Resume, q: Query) -> (r: Next)
        ensures
            *final(self) == (Fighter2D { resume: at, ..*old(self) }),
            r == Next::Ask(q),
    {
        self.resume = at;
        Next::Ask(q)
    }

    /// Enters the state reached by a cancel or an action.
    fn enter_target(&mut self, t: FighterState, cmds: &mut Vec<Command>)
        requires
            t == FighterState::Jumping || t == FighterState::GroundDash || is_attack(t)
                || (t == FighterState::AirDash && old(self).jumps_remaining >= 1
                && old(self).airdashes_remaining >= 1)
                || (t == FighterState::AirJump && old(self).jumps_remaining >= 1),
        ensures
            reaches(*final(self), final(cmds)@, old(cmds)@, spec_enter_target(*old(self), t)),
    {
        if t == FighterState::Jumping {
            self.enter_jumping(cmds)
        } else if t == FighterState::GroundDash {
            self.enter_ground_dash(cmds)
        } else if t == FighterState::AirDash {
            self.enter_airdash(cmds)
        } else if t == FighterState::AirJump {
            self.enter_airjump(cmds)
        } else {
            self.enter_attack(t, cmds)
        }
    }

    fn process_init<C: FighterController>(&mut self, ctl: &mut C) -> (r: Step)
        ensures
            realizes(old(self).spec_init(*old(ctl)), *final(self), *final(ctl), r),
    {
        let mut cmds: Vec<Command> = Vec::new();
        self.enter_falling(&mut cmds);
        let next = self.go_on(FighterState::Falling);
        Step { commands: cmds, next }
    }

    fn process_standing<C: FighterController>(&mut self, ctl: &mut C) -> (r: Step)
        ensures
            realizes(old(self).spec_standing(*old(ctl)), *final(self), *final(ctl), r),
    {
        let mut cmds: Vec<Command> = Vec::new();
        let next = match ctl.consume_action(self) {
            Some(Action::Jump) => {
                self.enter_jumping(&mut cmds);
                self.go_on(FighterState::Jumping)
            },
            Some(Action::AttackLight) => {
                self.enter_attack(FighterState::AttackGroundLight1, &mut cmds);
                self.go_on(FighterState::AttackGroundLight1)
            },
            Some(Action::AttackHeavy) => {
                self.enter_attack(FighterState::AttackGroundHeavy, &mut cmds);
                self.go_on(FighterState::AttackGroundHeavy)
            },
            _ => {
                if ctl.current_horizontal(self) != AxisDir::Neutral {
                    self.enter_walking(&mut cmds);
                    self.go_on(FighterState::Walk)
                } else {
                    self.finish()
                }
            },
        };
        Step { commands: cmds, next }
    }

    fn process_walking<C: FighterController>(&mut self, ctl: &mut C) -> (r: Step)
        ensures
            realizes(old(self).spec_walking(*old(ctl)), *final(self), *final(ctl), r),
    {
        let mut cmds: Vec<Command> = Vec::new();
        let input = ctl.current_horizontal(self);
        if input == AxisDir::Neutral {
            self.enter_standing(&mut cmds);
            let next = self.go_on(FighterState::Stand);
            return Step { commands: cmds, next };
        }
        self.update_facing(input, &mut cmds);
        let next = match ctl.consume_action(self) {
            Some(Action::Jump) => {
                self.enter_jumping(&mut cmds);
                self.go_on(FighterState::Jumping)
            },
            Some(Action::Dash) => {
                self.enter_ground_dash(&mut cmds);
                self.go_on(FighterState::GroundDash)
            },
            Some(Action::AttackLight) => {
                self.enter_attack(FighterState::AttackGroundLight1, &mut cmds);
                self.go_on(FighterState::AttackGroundLight1)
            },
            Some(Action::AttackHeavy) => {
                self.enter_attack(FighterState::AttackGroundHeavy, &mut cmds);
                self.go_on(FighterState::AttackGroundHeavy)
            },
            None => {
                let h = ctl.current_horizontal(self);
                cmds.push(Command::WalkInput(h));
                cmds.push(Command::HaltVertical);
                cmds.push(Command::MoveAndSlide);
                self.finish()
            },
        };
        Step { commands: cmds, next }
    }

    /// The airborne choice of a jump or a fall, if any.
    fn air_choice(&self, a: Option<Action>, move_input: AxisDir) -> (r: Option<FighterState>)
        ensures
            r == self.spec_air_choice(a, move_input),
    {
        match a {
            Some(Action::AttackLight) => Some(FighterState::AttackAirLight1),
            Some(Action::AttackHeavy) => Some(FighterState::AttackAirHeavy),
            Some(Action::Dash) => {
                if self.jumps_remaining >= 1 && self.airdashes_remaining >= 1 && move_input
                    != AxisDir::Neutral {
                    Some(FighterState::AirDash)
                } else {
                    None
                }
            },
            _ => None,
        }
    }

    fn process_jumping<C: FighterController>(&mut self, ctl: &mut C, check_release: bool) -> (r: Step)
        ensures
            realizes(
                old(self).spec_jumping(*old(ctl), check_release),
                *final(self),
                *final(ctl),
                r,
            ),
    {
        let mut cmds: Vec<Command> = Vec::new();
        let mi = ctl.current_horizontal(self);
        self.update_facing(mi, &mut cmds);
        let a = ctl.peek_action(self);
        let next = match self.air_choice(a, mi) {
            Some(t) => {
                ctl.consume_action(self);
                self.enter_target(t, &mut cmds);
                self.go_on(t)
            },
            None => {
                cmds.push(Command::Gravity);
                self.wait(Resume::Rising { check_release }, Query::Descending)
            },
        };
        Step { commands: cmds, next }
    }

    fn process_rising<C: FighterController>(
        &mut self,
        ctl: &mut C,
        check_release: bool,
        descending: bool,
    ) -> (r: Step)
        ensures
            realizes(
                old(self).spec_rising(*old(ctl), check_release, descending),
                *final(self),
                *final(ctl),
                r,
            ),
    {
        let mut cmds: Vec<Command> = Vec::new();
        if descending {
            self.enter_falling(&mut cmds);
            let next = self.go_on(FighterState::Falling);
            return Step { commands: cmds, next };
        }
        let h = ctl.current_horizontal(self);
        cmds.push(Command::WalkInputPreserving(h));
        cmds.push(Command::MoveAndSlide);
        cmds.push(Command::AirDamping);
        if check_release && !ctl.should_maintain_jump(self) {
            self.enter_falling(&mut cmds);
        }
        let next = self.finish();
        Step { commands: cmds, next }
    }

    fn process_falling<C: FighterController>(&mut self, ctl: &mut C) -> (r: Step)
        ensures
            realizes(old(self).spec_falling(*old(ctl)), *final(self), *final(ctl), r),
    {
        let mut cmds: Vec<Command> = Vec::new();
        let mi = ctl.current_horizontal(self);
        self.update_facing(mi, &mut cmds);
        let a = ctl.peek_action(self);
        if let Some(t) = self.air_choice(a, mi) {
            ctl.consume_action(self);
            self.enter_target(t, &mut cmds);
            let next = self.go_on(t);
            return Step { commands: cmds, next };
        }
        if a == Some(Action::Jump) && self.jumps_remaining >= 1 {
            ctl.consume_action(self);
            self.enter_airjump(&mut cmds);
            let next = self.go_on(FighterState::AirJump);
            return Step { commands: cmds, next };
        }
        if !self.fastfall && ctl.wants_fastfall(self) {
            self.fastfall = true;
        }
        let h = ctl.current_horizontal(self);
        cmds.push(Command::WalkInputPreserving(h));
        if self.fastfall {
            cmds.push(Command::FastfallVelocity);
        } else {
            cmds.push(Command::Gravity);
        }
        let next = self.wait(Resume::FallSlide { move_input: mi }, Query::Slide);
        Step { commands: cmds, next }
    }

    fn process_fall_slide<C: FighterController>(
        &mut self,
        ctl: &mut C,
        move_input: AxisDir,
        slide: SlideResult,
    ) -> (r: Step)
        ensures
            realizes(
                old(self).spec_fall_slide(*old(ctl), move_input, slide),
                *final(self),
                *final(ctl),
                r,
            ),
    {
        let mut cmds: Vec<Command> = Vec::new();
        if slide.collided && slide.on_floor {
            self.enter_standing_or_walking(move_input, &mut cmds);
        }
        cmds.push(Command::AirDamping);
        let next = self.finish();
        Step { commands: cmds, next }
    }

    fn process_airdash<C: FighterController>(&mut self, ctl: &mut C) -> (r: Step)
        requires
            old(self).dash_frames_remaining >= 1,
        ensures
            realizes(old(self).spec_airdash(*old(ctl)), *final(self), *final(ctl), r),
    {
        let mut cmds: Vec<Command> = Vec::new();
        self.dash_frames_remaining = self.dash_frames_remaining - 1;
        ctl.consume_action(self);
        let next = if !ctl.should_maintain_dash(self) {
            self.enter_falling(&mut cmds);
            self.go_on(FighterState::Falling)
        } else {
            self.wait(Resume::AirDashSlide, Query::Slide)
        };
        Step { commands: cmds, next }
    }

    fn process_airdash_slide<C: FighterController>(&mut self, ctl: &mut C, slide: SlideResult) -> (r: Step)
        ensures
            realizes(old(self).spec_airdash_slide(*old(ctl), slide), *final(self), *final(ctl), r),
    {
        let mut cmds: Vec<Command> = Vec::new();
        if self.dash_frames_remaining == 0 {
            let h = ctl.current_horizontal(self);
            self.enter_standing_walking_or_falling(slide, h, &mut cmds);
        }
        let next = self.finish();
        Step { commands: cmds, next }
    }

    fn process_ground_dash<C: FighterController>(&mut self, ctl: &mut C) -> (r: Step)
        requires
            old(self).dash_frames_remaining >= 1,
        ensures
            realizes(old(self).spec_ground_dash(*old(ctl)), *final(self), *final(ctl), r),
    {
        let mut cmds: Vec<Command> = Vec::new();
        self.dash_frames_remaining = self.dash_frames_remaining - 1;
        if ctl.consume_action(self) == Some(Action::Jump) {
            self.enter_jumping(&mut cmds);
            let next = self.go_on(FighterState::Jumping);
            return Step { commands: cmds, next };
        }
        if !ctl.should_maintain_dash(self) {
            let h = ctl.current_horizontal(self);
            self.enter_standing_or_walking(h, &mut cmds);
            let s = self.state;
            let next = self.go_on(s);
            return Step { commands: cmds, next };
        }
        cmds.push(Command::DashDamping);
        let next = self.wait(Resume::GroundDashSlide, Query::Slide);
        Step { commands: cmds, next }
    }

    fn process_ground_dash_slide<C: FighterController>(&mut self, ctl: &mut C, slide: SlideResult) -> (r: Step)
        ensures
            realizes(
                old(self).spec_ground_dash_slide(*old(ctl), slide),
                *final(self),
                *final(ctl),
                r,
            ),
    {
        let mut cmds: Vec<Command> = Vec::new();
        let next = if self.dash_frames_remaining == 0 {
            let h = ctl.current_horizontal(self);
            self.enter_standing_walking_or_falling(slide, h, &mut cmds);
            self.finish()
        } else {
            self.wait(Resume::GroundDashSlowed { slide }, Query::DashSlowed)
        };
        Step { commands: cmds, next }
    }

    fn process_ground_dash_slowed<C: FighterController>(
        &mut self,
        ctl: &mut C,
        slide: SlideResult,
        slowed: bool,
    ) -> (r: Step)
        ensures
            realizes(
                old(self).spec_ground_dash_slowed(*old(ctl), slide, slowed),
                *final(self),
                *final(ctl),
                r,
            ),
    {
        let mut cmds: Vec<Command> = Vec::new();
        if slowed {
            let h = ctl.current_horizontal(self);
            self.enter_standing_walking_or_falling(slide, h, &mut cmds);
        }
        let next = self.finish();
        Step { commands: cmds, next }
    }

    fn process_hitstun<C: FighterController>(&mut self, ctl: &mut C) -> (r: Step)
        ensures
            realizes(old(self).spec_hitstun(*old(ctl)), *final(self), *final(ctl), r),
    {
        let mut cmds: Vec<Command> = Vec::new();
        if self.hitstun_frames_remaining > 0 {
            self.hitstun_frames_remaining = self.hitstun_frames_remaining - 1;
        }
        cmds.push(Command::KnockbackDamping);
        cmds.push(Command::Gravity);
        let next = self.wait(Resume::HitStunSlide, Query::Slide);
        Step { commands: cmds, next }
    }

    fn process_hitstun_slide<C: FighterController>(&mut self, ctl: &mut C, slide: SlideResult) -> (r: Step)
        ensures
            realizes(old(self).spec_hitstun_slide(*old(ctl), slide), *final(self), *final(ctl), r),
    {
        let mut cmds: Vec<Command> = Vec::new();
        if self.hitstun_frames_remaining == 0 {
            let h = ctl.current_horizontal(self);
            self.enter_standing_walking_or_falling(slide, h, &mut cmds);
        }
        let next = self.finish();
        Step { commands: cmds, next }
    }

    /// Which state a grounded attack cancels into.
    fn ground_cancel(kind: FighterState, action: Action) -> (r: Option<FighterState>)
        ensures
            r == spec_ground_cancel(kind, action),
    {
        match (kind, action) {
            (FighterState::AttackGroundLight1, Action::AttackLight) => Some(FighterState::AttackGroundLight2),
            (FighterState::AttackGroundLight2, Action::AttackLight) => Some(FighterState::AttackGroundLight3),
            (FighterState::AttackGroundLight1, Action::AttackHeavy)
            | (FighterState::AttackGroundLight2, Action::AttackHeavy)
            | (FighterState::AttackGroundLight3, Action::AttackHeavy) => Some(FighterState::AttackGroundHeavy),
            (FighterState::AttackGroundLight1, Action::Jump)
            | (FighterState::AttackGroundLight2, Action::Jump)
            | (FighterState::AttackGroundLight3, Action::Jump)
            | (FighterState::AttackGroundHeavy, Action::Jump)
            | (FighterState::AttackLauncher, Action::Jump) => Some(FighterState::Jumping),
            (FighterState::AttackGroundLight1, Action::Dash)
            | (FighterState::AttackGroundLight2, Action::Dash)
            | (FighterState::AttackGroundLight3, Action::Dash)
            | (FighterState::AttackGroundHeavy, Action::Dash)
            | (FighterState::AttackLauncher, Action::Dash) => Some(FighterState::GroundDash),
            _ => None,
        }
    }

    /// Which state an aerial attack cancels into.
    fn aerial_cancel(kind: FighterState, action: Action, jumps: u32, airdashes: u32) -> (r: Option<FighterState>)
        ensures
            r == spec_aerial_cancel(kind, action, jumps, airdashes),
    {
        match (kind, action) {
            (FighterState::AttackAirLight1, Action::AttackLight) => Some(FighterState::AttackAirLight2),
            (FighterState::AttackAirLight2, Action::AttackLight) => Some(FighterState::AttackAirLight3),
            (FighterState::AttackAirLight1, Action::AttackHeavy)
            | (FighterState::AttackAirLight2, Action::AttackHeavy)
            | (FighterState::AttackAirLight3, Action::AttackHeavy) => Some(FighterState::AttackAirHeavy),
            (_, Action::Jump) => if jumps >= 1 { Some(FighterState::AirJump) } else { None },
            (_, Action::Dash) => if jumps >= 1 && airdashes >= 1 {
            Some(FighterState::AirDash)
        } else {
            None
        },
            _ => None,
        }
    }

    fn process_ground_attack<C: FighterController>(
        &mut self,
        ctl: &mut C,
        anim: AnimationState,
        kind: FighterState,
    ) -> (r: Step)
        ensures
            realizes(old(self).spec_ground_attack(*old(ctl), anim, kind), *final(self), *final(ctl), r),
    {
        let mut cmds: Vec<Command> = Vec::new();
        let a = ctl.peek_action(self);
        let target = match a {
            Some(action) => if self.can_cancel_attack(anim) {
                Self::ground_cancel(kind, action)
            } else {
                None
            },
            None => None,
        };
        let next = match target {
            Some(t) => {
                ctl.consume_action(self);
                self.enter_target(t, &mut cmds);
                self.go_on(t)
            },
            None => {
                if anim.anim_finished {
                    let h = ctl.current_horizontal(self);
                    self.enter_standing_or_walking(h, &mut cmds);
                }
                self.finish()
            },
        };
        Step { commands: cmds, next }
    }

    fn aerial_end<C: FighterController>(
        &mut self,
        ctl: &mut C,
        anim: AnimationState,
        slide: SlideResult,
        cmds: &mut Vec<Command>,
    ) -> (r: Next)
        ensures
            ({
                let o = old(self).spec_aerial_end(*old(ctl), anim, slide);
                &&& o.fighter == *final(self)
                &&& o.controller == *final(ctl)
                &&& final(cmds)@ =~= old(cmds)@ + o.commands
                &&& o.next == r
            }),
    {
        if anim.anim_finished {
            let h = ctl.current_horizontal(self);
            self.enter_standing_walking_or_falling(slide, h, cmds);
        }
        self.finish()
    }

    fn process_aerial_attack<C: FighterController>(
        &mut self,
        ctl: &mut C,
        anim: AnimationState,
        kind: FighterState,
    ) -> (r: Step)
        ensures
            realizes(old(self).spec_aerial_attack(*old(ctl), anim, kind), *final(self), *final(ctl), r),
    {
        let mut cmds: Vec<Command> = Vec::new();
        let a = ctl.peek_action(self);
        let target = match a {
            Some(action) => if self.can_cancel_attack(anim) {
                Self::aerial_cancel(kind, action, self.jumps_remaining, self.airdashes_remaining)
            } else {
                None
            },
            None => None,
        };
        let next = match target {
            Some(t) => {
                ctl.consume_action(self);
                self.enter_target(t, &mut cmds);
                if t == FighterState::AirJump {
                    self.go_on(FighterState::Jumping)
                } else {
                    self.go_on(t)
                }
            },
            None => {
                if !self.attack_contact {
                    let h = ctl.current_horizontal(self);
                    cmds.push(Command::WalkInputPreserving(h));
                    cmds.push(Command::Gravity);
                    self.wait(Resume::AerialSlide, Query::Slide)
                } else {
                    self.aerial_end(ctl, anim, SlideResult { collided: false, on_floor: false }, &mut cmds)
                }
            },
        };
        Step { commands: cmds, next }
    }

    fn process_aerial_slide<C: FighterController>(
        &mut self,
        ctl: &mut C,
        anim: AnimationState,
        slide: SlideResult,
    ) -> (r: Step)
        ensures
            realizes(old(self).spec_aerial_slide(*old(ctl), anim, slide), *final(self), *final(ctl), r),
    {
        let mut cmds: Vec<Command> = Vec::new();
        cmds.push(Command::AirDamping);
        let next = if slide.collided && slide.on_floor {
            let h = ctl.current_horizontal(self);
            self.enter_standing_or_walking(h, &mut cmds);
            self.resume = Resume::AerialLanded { slide };
            Next::Continue
        } else {
            self.aerial_end(ctl, anim, slide, &mut cmds)
        };
        Step { commands: cmds, next }
    }

    fn process<C: FighterController>(
        &mut self,
        ctl: &mut C,
        anim: AnimationState,
        s: FighterState,
    ) -> (r: Step)
        requires
            is_dash(s) ==> old(self).dash_frames_remaining >= 1,
        ensures
            realizes(old(self).spec_process(*old(ctl), anim, s), *final(self), *final(ctl), r),
    {
        match s {
            FighterState::Init => self.process_init(ctl),
            FighterState::Stand => self.process_standing(ctl),
            FighterState::Walk => self.process_walking(ctl),
            FighterState::GroundDash => self.process_ground_dash(ctl),
            FighterState::AirDash => self.process_airdash(ctl),
            FighterState::Jumping => self.process_jumping(ctl, true),
            FighterState::AirJump => self.process_jumping(ctl, false),
            FighterState::Falling => self.process_falling(ctl),
            FighterState::HitStun => self.process_hitstun(ctl),
            FighterState::AttackAirLight1 | FighterState::AttackAirLight2
            | FighterState::AttackAirLight3 | FighterState::AttackAirHeavy => {
                self.process_aerial_attack(ctl, anim, s)
            },
            _ => self.process_ground_attack(ctl, anim, s),
        }
    }

    /// Runs the frame on from where it stands, up to the next point where the body has to
    /// act or answer: the fighter's per-frame physics routine, cut at each outside call.
    ///
    /// A frame starts with the fighter idle; the caller then carries out the returned
    /// commands in order and resumes as `next` says until the frame is done.
    pub fn resume<C: FighterController>(
        &mut self,
        ctl: &mut C,
        anim: AnimationState,
        reply: Reply,
    ) -> (r: Step)
        requires
            old(self).wf(),
            old(self).resume.accepts(reply),
        ensures
            realizes(old(self).spec_resume(*old(ctl), anim, reply), *final(self), *final(ctl), r),
            final(self).wf(),
    {
        proof {
            lemma_resume_keeps_wf(*self, *ctl, anim, reply);
        }
        match self.resume {
            Resume::Idle => {
                let s = self.state;
                self.process(ctl, anim, s)
            },
            Resume::Process(s) => self.process(ctl, anim, s),
            Resume::Rising { check_release } => {
                let descending = match reply {
                    Reply::Flag(b) => b,
                    _ => false,
                };
                self.process_rising(ctl, check_release, descending)
            },
            Resume::FallSlide { move_input } => {
                let slide = match reply {
                    Reply::Slid(s) => s,
                    _ => SlideResult { collided: false, on_floor: false },
                };
                self.process_fall_slide(ctl, move_input, slide)
            },
            Resume::AirDashSlide => {
                let slide = match reply {
                    Reply::Slid(s) => s,
                    _ => SlideResult { collided: false, on_floor: false },
                };
                self.process_airdash_slide(ctl, slide)
            },
            Resume::GroundDashSlide => {
                let slide = match reply {
                    Reply::Slid(s) => s,
                    _ => SlideResult { collided: false, on_floor: false },
                };
                self.process_ground_dash_slide(ctl, slide)
            },
            Resume::GroundDashSlowed { slide } => {
                let slowed = match reply {
                    Reply::Flag(b) => b,
                    _ => false,
                };
                self.process_ground_dash_slowed(ctl, slide, slowed)
            },
            Resume::HitStunSlide => {
                let slide = match reply {
                    Reply::Slid(s) => s,
                    _ => SlideResult { collided: false, on_floor: false },
                };
                self.process_hitstun_slide(ctl, slide)
            },
            Resume::AerialSlide => {
                let slide = match reply {
                    Reply::Slid(s) => s,
                    _ => SlideResult { collided: false, on_floor: false },
                };
                self.process_aerial_slide(ctl, anim, slide)
            },
            Resume::AerialLanded { slide } => {
                let mut cmds: Vec<Command> = Vec::new();
                let next = self.aerial_end(ctl, anim, slide, &mut cmds);
                Step { commands: cmds, next }
            },
        }
    }
}

} // verus!
