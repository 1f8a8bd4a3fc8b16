use vstd::prelude::*;

use crate::fighter::{Anim, Command, FacingDirection, Fighter2D, FighterState, SlideResult};
use crate::input::AxisDir;

verus! {

/// A fighter together with the commands that some transition of it issues.
pub type Entered = (Fighter2D, Seq<Command>);

/// The animation of an attack state.
pub open spec fn spec_attack_anim(state: FighterState) -> Anim {
    match state {
        FighterState::AttackGroundLight1 => Anim::AttackGroundLight1,
        FighterState::AttackGroundLight2 => Anim::AttackGroundLight2,
        FighterState::AttackGroundLight3 => Anim::AttackGroundLight3,
        FighterState::AttackGroundHeavy => Anim::AttackGroundHeavy,
        FighterState::AttackAirLight1 => Anim::AttackAirLight1,
        FighterState::AttackAirLight2 => Anim::AttackAirLight2,
        FighterState::AttackAirLight3 => Anim::AttackAirLight3,
        FighterState::AttackAirHeavy => Anim::AttackAirHeavy,
        FighterState::AttackLauncher => Anim::AttackLauncher,
        FighterState::AttackStinger => Anim::AttackStinger,
        FighterState::AttackRisingSlash => Anim::AttackRisingSlash,
        FighterState::AttackDivekick => Anim::AttackDivekick,
        _ => Anim::AttackHelmBreaker,
    }
}

/// The states that are attacks.
pub open spec fn is_attack(state: FighterState) -> bool {
    match state {
        FighterState::AttackGroundLight1 | FighterState::AttackGroundLight2
        | FighterState::AttackGroundLight3 | FighterState::AttackGroundHeavy
        | FighterState::AttackAirLight1 | FighterState::AttackAirLight2
        | FighterState::AttackAirLight3 | FighterState::AttackAirHeavy
        | FighterState::AttackLauncher | FighterState::AttackStinger
        | FighterState::AttackRisingSlash | FighterState::AttackDivekick
        | FighterState::AttackHelmBreaker => true,
        _ => false,
    }
}

/// Whether `f` together with `cmds` is what `old_cmds` followed by the transition `e` gives.
pub open spec fn reaches(f: Fighter2D, cmds: Seq<Command>, old_cmds: Seq<Command>, e: Entered) -> bool {
    f == e.0 && cmds =~= old_cmds + e.1
}

impl Fighter2D {
    pub open spec fn spec_enter_standing(self) -> Entered {
        (
            Fighter2D {
                state: FighterState::Stand,
                jumps_remaining: self.air_jump_count,
                airdashes_remaining: self.airdash_count,
                ..self
            },
            seq![Command::StopMotion, Command::PlayAnim(Anim::Idle)],
        )
    }

    pub open spec fn spec_enter_walking(self) -> Entered {
        (
            Fighter2D {
                state: FighterState::Walk,
                jumps_remaining: self.air_jump_count,
                airdashes_remaining: self.airdash_count,
                ..self
            },
            seq![Command::PlayAnim(Anim::Run)],
        )
    }

    /// Standing without horizontal input, walking with it.
    pub open spec fn spec_enter_standing_or_walking(self, input: AxisDir) -> Entered {
        if input == AxisDir::Neutral {
            self.spec_enter_standing()
        } else {
            self.spec_enter_walking()
        }
    }

    pub open spec fn spec_enter_falling(self) -> Entered {
        (
            Fighter2D { state: FighterState::Falling, fastfall: false, ..self },
            seq![Command::PlayAnim(Anim::Fall)],
        )
    }

    /// After a move: back on the ground if it landed on a floor, else falling.
    pub open spec fn spec_enter_standing_walking_or_falling(
        self,
        slide: SlideResult,
        input: AxisDir,
    ) -> Entered {
        if slide.collided && slide.on_floor {
            self.spec_enter_standing_or_walking(input)
        } else {
            self.spec_enter_falling()
        }
    }

    pub open spec fn spec_enter_jumping(self) -> Entered {
        (
            Fighter2D { state: FighterState::Jumping, ..self },
            seq![Command::PlayAnim(Anim::Jump), Command::JumpImpulse],
        )
    }

    /// An air jump uses up one of the air jumps left.
    pub open spec fn spec_enter_airjump(self) -> Entered {
        (
            Fighter2D {
                state: FighterState::AirJump,
                jumps_remaining: (self.jumps_remaining - 1) as u32,
                ..self
            },
            seq![Command::AirJumpImpulse, Command::PlayAnim(Anim::Jump)],
        )
    }

    /// An air dash uses up one of the air jumps left and one of the airdashes left, and runs
    /// for the air dash length. Spending an air jump is what makes an air dash count against
    /// `air_jump_count`; the separate airdash budget is what `airdash_count` promises (how many
    /// airdashes can be performed before touching the ground), and with the default allowances
    /// of one each it never refuses a dash that an air jump would allow.
    pub open spec fn spec_enter_airdash(self) -> Entered {
        (
            Fighter2D {
                state: FighterState::AirDash,
                jumps_remaining: (self.jumps_remaining - 1) as u32,
                airdashes_remaining: (self.airdashes_remaining - 1) as u32,
                dash_frames_remaining: self.airdash_frames,
                ..self
            },
            seq![
                Command::DashImpulse { facing: self.facing, airborne: true },
                Command::PlayAnim(Anim::Dash),
            ],
        )
    }

    /// A ground dash runs for the ground dash length.
    pub open spec fn spec_enter_ground_dash(self) -> Entered {
        (
            Fighter2D {
                state: FighterState::GroundDash,
                dash_frames_remaining: self.ground_dash_frames,
                ..self
            },
            seq![
                Command::DashImpulse { facing: self.facing, airborne: false },
                Command::PlayAnim(Anim::Dash),
            ],
        )
    }

    /// An attack starts without contact, with fresh animation flags; all but the air heavy
    /// stop the fighter in place.
    pub open spec fn spec_enter_attack(self, state: FighterState) -> Entered {
        (
            Fighter2D { state: state, attack_contact: false, ..self },
            if state == FighterState::AttackAirHeavy {
                seq![Command::ResetAnimState, Command::PlayAnim(spec_attack_anim(state))]
            } else {
                seq![
                    Command::ResetAnimState,
                    Command::StopMotion,
                    Command::PlayAnim(spec_attack_anim(state)),
                ]
            },
        )
    }

    /// Hitstun for a number of frames, flung by the attack's knockback.
    pub open spec fn spec_enter_hitstun(self, frames: u32) -> Entered {
        (
            Fighter2D { state: FighterState::HitStun, hitstun_frames_remaining: frames, ..self },
            seq![Command::Knockback, Command::PlayAnim(Anim::Hitstun)],
        )
    }

    /// Turning towards the held direction; no input keeps the facing.
    pub open spec fn spec_update_facing(self, input: AxisDir) -> Entered {
        match input {
            AxisDir::Positive => (
                Fighter2D { facing: FacingDirection::Right, ..self },
                seq![Command::Face(FacingDirection::Right)],
            ),
            AxisDir::Negative => (
                Fighter2D { facing: FacingDirection::Left, ..self },
                seq![Command::Face(FacingDirection::Left)],
            ),
            AxisDir::Neutral => (self, Seq::empty()),
        }
    }

    pub(crate) fn enter_standing(&mut self, cmds: &mut Vec<Command>)
        ensures
            reaches(*final(self), final(cmds)@, old(cmds)@, old(self).spec_enter_standing()),
    {
        self.state = FighterState::Stand;
        self.jumps_remaining = self.air_jump_count;
        self.airdashes_remaining = self.airdash_count;
        cmds.push(Command::StopMotion);
        cmds.push(Command::PlayAnim(Anim::Idle));
    }

    pub(crate) fn enter_walking(&mut self, cmds: &mut Vec<Command>)
        ensures
            reaches(*final(self), final(cmds)@, old(cmds)@, old(self).spec_enter_walking()),
    {
        self.state = FighterState::Walk;
        cmds.push(Command::PlayAnim(Anim::Run));
        self.jumps_remaining = self.air_jump_count;
        self.airdashes_remaining = self.airdash_count;
    }

    pub(crate) fn enter_standing_or_walking(&mut self, input: AxisDir, cmds: &mut Vec<Command>)
        ensures
            reaches(
                *final(self),
                final(cmds)@,
                old(cmds)@,
                old(self).spec_enter_standing_or_walking(input),
            ),
    {
        match input {
            AxisDir::Neutral => self.enter_standing(cmds),
            _ => self.enter_walking(cmds),
        }
    }

    pub(crate) fn enter_falling(&mut self, cmds: &mut Vec<Command>)
        ensures
            reaches(*final(self), final(cmds)@, old(cmds)@, old(self).spec_enter_falling()),
    {
        self.state = FighterState::Falling;
        self.fastfall = false;
        cmds.push(Command::PlayAnim(Anim::Fall));
    }

    pub(crate) fn enter_standing_walking_or_falling(
        &mut self,
        slide: SlideResult,
        input: AxisDir,
        cmds: &mut Vec<Command>,
    )
        ensures
            reaches(
                *final(self),
                final(cmds)@,
                old(cmds)@,
                old(self).spec_enter_standing_walking_or_falling(slide, input),
            ),
    {
        if slide.collided && slide.on_floor {
            self.enter_standing_or_walking(input, cmds)
        } else {
            self.enter_falling(cmds)
        }
    }

    pub(crate) fn enter_jumping(&mut self, cmds: &mut Vec<Command>)
        ensures
            reaches(*final(self), final(cmds)@, old(cmds)@, old(self).spec_enter_jumping()),
    {
        self.state = FighterState::Jumping;
        cmds.push(Command::PlayAnim(Anim::Jump));
        cmds.push(Command::JumpImpulse);
    }

    pub(crate) fn enter_airjump(&mut self, cmds: &mut Vec<Command>)
        requires
            old(self).jumps_remaining >= 1,
        ensures
            reaches(*final(self), final(cmds)@, old(cmds)@, old(self).spec_enter_airjump()),
    {
        self.state = FighterState::AirJump;
        self.jumps_remaining = self.jumps_remaining - 1;
        cmds.push(Command::AirJumpImpulse);
        cmds.push(Command::PlayAnim(Anim::Jump));
    }

    pub(crate) fn enter_airdash(&mut self, cmds: &mut Vec<Command>)
        requires
            old(self).jumps_remaining >= 1,
            old(self).airdashes_remaining >= 1,
        ensures
            reaches(*final(self), final(cmds)@, old(cmds)@, old(self).spec_enter_airdash()),
    {
        self.state = FighterState::AirDash;
        self.jumps_remaining = self.jumps_remaining - 1;
        self.airdashes_remaining = self.airdashes_remaining - 1;
        self.dash_frames_remaining = self.airdash_frames;
        cmds.push(Command::DashImpulse { facing: self.facing, airborne: true });
        cmds.push(Command::PlayAnim(Anim::Dash));
    }

    pub(crate) fn enter_ground_dash(&mut self, cmds: &mut Vec<Command>)
        ensures
            reaches(*final(self), final(cmds)@, old(cmds)@, old(self).spec_enter_ground_dash()),
    {
        self.state = FighterState::GroundDash;
        self.dash_frames_remaining = self.ground_dash_frames;
        cmds.push(Command::DashImpulse { facing: self.facing, airborne: false });
        cmds.push(Command::PlayAnim(Anim::Dash));
    }

    pub(crate) fn enter_attack(&mut self, state: FighterState, cmds: &mut Vec<Command>)
        requires
            is_attack(state),
        ensures
            reaches(*final(self), final(cmds)@, old(cmds)@, old(self).spec_enter_attack(state)),
    {
        self.state = state;
        self.attack_contact = false;
        cmds.push(Command::ResetAnimState);
        if state != FighterState::AttackAirHeavy {
            cmds.push(Command::StopMotion);
        }
        let anim = match state {
            FighterState::AttackGroundLight1 => Anim::AttackGroundLight1,
            FighterState::AttackGroundLight2 => Anim::AttackGroundLight2,
            FighterState::AttackGroundLight3 => Anim::AttackGroundLight3,
            FighterState::AttackGroundHeavy => Anim::AttackGroundHeavy,
            FighterState::AttackAirLight1 => Anim::AttackAirLight1,
            FighterState::AttackAirLight2 => Anim::AttackAirLight2,
            FighterState::AttackAirLight3 => Anim::AttackAirLight3,
            FighterState::AttackAirHeavy => Anim::AttackAirHeavy,
            FighterState::AttackLauncher => Anim::AttackLauncher,
            FighterState::AttackStinger => Anim::AttackStinger,
            FighterState::AttackRisingSlash => Anim::AttackRisingSlash,
            FighterState::AttackDivekick => Anim::AttackDivekick,
            _ => Anim::AttackHelmBreaker,
        };
        cmds.push(Command::PlayAnim(anim));
    }

    pub(crate) fn enter_hitstun(&mut self, frames: u32, cmds: &mut Vec<Command>)
        ensures
            reaches(*final(self), final(cmds)@, old(cmds)@, old(self).spec_enter_hitstun(frames)),
    {
        self.state = FighterState::HitStun;
        self.hitstun_frames_remaining = frames;
        cmds.push(Command::Knockback);
        cmds.push(Command::PlayAnim(Anim::Hitstun));
    }

    pub(crate) fn update_facing(&mut self, input: AxisDir, cmds: &mut Vec<Command>)
        ensures
            reaches(*final(self), final(cmds)@, old(cmds)@, old(self).spec_update_facing(input)),
    {
        match input {
            AxisDir::Positive => {
                self.facing = FacingDirection::Right;
                cmds.push(Command::Face(FacingDirection::Right));
            },
            AxisDir::Negative => {
                self.facing = FacingDirection::Left;
                cmds.push(Command::Face(FacingDirection::Left));
            },
            AxisDir::Neutral => {},
        }
    }
}

} // verus!
