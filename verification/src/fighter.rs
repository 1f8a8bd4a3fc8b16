use vstd::prelude::*;

use crate::input::AxisDir;

pub mod frame;
pub mod laws;
pub mod moves;

verus! {

/// Every state a fighter can be in.
#[derive(Debug, Clone, Copy, PartialEq, Eq, Structural)]
pub enum FighterState {
    Init,
    Stand,
    Walk,
    GroundDash,
    AirDash,
    Jumping,
    AirJump,
    Falling,
    HitStun,
    // normals
    AttackGroundLight1,
    AttackGroundLight2,
    AttackGroundLight3,
    AttackGroundHeavy,
    AttackAirLight1,
    AttackAirLight2,
    AttackAirLight3,
    AttackAirHeavy,
    // commands
    AttackLauncher,
    AttackStinger,
    AttackRisingSlash,
    AttackDivekick,
    AttackHelmBreaker,
}

/// The two dashing states, which count their frames down.
pub open spec fn is_dash(state: FighterState) -> bool {
    state == FighterState::GroundDash || state == FighterState::AirDash
}

impl Default for FighterState {
    fn default() -> (r: Self)
        ensures
            r == FighterState::Init,
    {
        FighterState::Init
    }
}

/// The side a fighter looks at.
#[derive(Debug, Clone, Copy, PartialEq, Eq, Structural)]
pub enum FacingDirection {
    Left,
    Right,
}

impl Default for FacingDirection {
    fn default() -> (r: Self)
        ensures
            r == FacingDirection::Right,
    {
        FacingDirection::Right
    }
}

/// The two flags that an attack animation raises while it plays.
#[derive(Debug, Clone, Copy, PartialEq, Eq, Structural)]
pub struct AnimationState {
    /// The attack may be cancelled into another move from here on.
    pub cancellable: bool,
    /// The attack animation has run to its end.
    pub anim_finished: bool,
}

impl AnimationState {
    /// Lowers both flags, as at the start of a new attack.
    pub fn reset(&mut self)
        ensures
            final(self).cancellable == false,
            final(self).anim_finished == false,
    {
        self.cancellable = false;
        self.anim_finished = false;
    }
}

/// The animations a fighter plays.
#[derive(Debug, Clone, Copy, PartialEq, Eq, Structural)]
pub enum Anim {
    Idle,
    Run,
    Jump,
    Fall,
    Dash,
    Hitstun,
    AttackGroundLight1,
    AttackGroundLight2,
    AttackGroundLight3,
    AttackGroundHeavy,
    AttackAirLight1,
    AttackAirLight2,
    AttackAirLight3,
    AttackAirHeavy,
    AttackLauncher,
    AttackStinger,
    AttackRisingSlash,
    AttackDivekick,
    AttackHelmBreaker,
}

impl Anim {
    /// The name under which the animation player knows the animation.
    pub open spec fn spec_name(self) -> Seq<char> {
        match self {
            Anim::Idle => "idle"@,
            Anim::Run => "run"@,
            Anim::Jump => "jump"@,
            Anim::Fall => "fall"@,
            Anim::Dash => "dash"@,
            Anim::Hitstun => "hitstun"@,
            Anim::AttackGroundLight1 => "attack_ground_light_1"@,
            Anim::AttackGroundLight2 => "attack_ground_light_2"@,
            Anim::AttackGroundLight3 => "attack_ground_light_3"@,
            Anim::AttackGroundHeavy => "attack_ground_heavy"@,
            Anim::AttackAirLight1 => "attack_air_light_1"@,
            Anim::AttackAirLight2 => "attack_air_light_2"@,
            Anim::AttackAirLight3 => "attack_air_light_3"@,
            Anim::AttackAirHeavy => "attack_air_heavy"@,
            Anim::AttackLauncher => "attack_launcher"@,
            Anim::AttackStinger => "attack_stinger"@,
            Anim::AttackRisingSlash => "attack_rising_slash"@,
            Anim::AttackDivekick => "attack_dive_kick"@,
            Anim::AttackHelmBreaker => "attack_helm_breaker"@,
        }
    }

    /// The name under which the animation player knows the animation.
    pub fn name(self) -> (r: &'static str)
        ensures
            r@ == self.spec_name(),
    {
        match self {
            Anim::Idle => "idle",
            Anim::Run => "run",
            Anim::Jump => "jump",
            Anim::Fall => "fall",
            Anim::Dash => "dash",
            Anim::Hitstun => "hitstun",
            Anim::AttackGroundLight1 => "attack_ground_light_1",
            Anim::AttackGroundLight2 => "attack_ground_light_2",
            Anim::AttackGroundLight3 => "attack_ground_light_3",
            Anim::AttackGroundHeavy => "attack_ground_heavy",
            Anim::AttackAirLight1 => "attack_air_light_1",
            Anim::AttackAirLight2 => "attack_air_light_2",
            Anim::AttackAirLight3 => "attack_air_light_3",
            Anim::AttackAirHeavy => "attack_air_heavy",
            Anim::AttackLauncher => "attack_launcher",
            Anim::AttackStinger => "attack_stinger",
            Anim::AttackRisingSlash => "attack_rising_slash",
            Anim::AttackDivekick => "attack_dive_kick",
            Anim::AttackHelmBreaker => "attack_helm_breaker",
        }
    }
}

/// Work on the fighter's body that the physics engine and the scene tree carry out:
/// everything that touches velocity, collisions, sprites and animations.
#[derive(Debug, Clone, Copy, PartialEq, Eq, Structural)]
pub enum Command {
    /// Play an animation from its start.
    PlayAnim(Anim),
    /// Lower the attack animation flags.
    ResetAnimState,
    /// Set the velocity to zero.
    StopMotion,
    /// Set the vertical velocity to the upward jump speed.
    JumpImpulse,
    /// Set the vertical velocity to the upward air jump speed.
    AirJumpImpulse,
    /// Set the velocity to the dash speed (of an air dash or a ground dash) towards `facing`.
    DashImpulse { facing: FacingDirection, airborne: bool },
    /// Set the velocity to the knockback of the attack that just landed.
    Knockback,
    /// Turn sprite and attack hitboxes towards a side.
    Face(FacingDirection),
    /// Set the horizontal velocity to the walk speed in the input's direction, if any.
    WalkInput(AxisDir),
    /// Steer with the walk speed without slowing down faster momentum.
    WalkInputPreserving(AxisDir),
    /// Set the vertical velocity to zero.
    HaltVertical,
    /// Accelerate downwards, capped at the terminal speed.
    Gravity,
    /// Set the vertical velocity to the fastfall speed.
    FastfallVelocity,
    /// Slow horizontal momentum above walk speed.
    AirDamping,
    /// Slow horizontal knockback.
    KnockbackDamping,
    /// Slow a ground dash, never below walk speed.
    DashDamping,
    /// Move the body, ignoring whether it collided.
    MoveAndSlide,
}

/// What the body reports after moving.
#[derive(Debug, Clone, Copy, PartialEq, Eq, Structural)]
pub struct SlideResult {
    /// The move collided with something.
    pub collided: bool,
    /// One of the move's collisions was with a floor.
    pub on_floor: bool,
}

/// A fact about the body that the frame needs before it can go on.
#[derive(Debug, Clone, Copy, PartialEq, Eq, Structural)]
pub enum Query {
    /// Move the body and report the collisions.
    Slide,
    /// Is the vertical velocity zero or downwards?
    Descending,
    /// Is the horizontal speed at most the walk speed?
    DashSlowed,
}

/// The answer to the last query.
#[derive(Debug, Clone, Copy, PartialEq, Eq, Structural)]
pub enum Reply {
    Nothing,
    Slid(SlideResult),
    Flag(bool),
}

/// How the frame goes on after a step.
#[derive(Debug, Clone, Copy, PartialEq, Eq, Structural)]
pub enum Next {
    /// Carry out the commands, then resume with no reply.
    Continue,
    /// Carry out the commands, answer the query, then resume with the answer.
    Ask(Query),
    /// Carry out the commands; the frame is over.
    Done,
}

/// Where a frame that is under way stands.
#[derive(Debug, Clone, Copy, PartialEq, Eq, Structural)]
pub enum Resume {
    /// No frame is under way.
    Idle,
    /// Run the per-frame routine of the given state from its start.
    Process(FighterState),
    /// A jump has applied gravity and waits to hear whether it is descending.
    Rising { check_release: bool },
    /// A fall has moved and waits for the slide result.
    FallSlide { move_input: AxisDir },
    /// An air dash has moved and waits for the slide result.
    AirDashSlide,
    /// A ground dash has moved and waits for the slide result.
    GroundDashSlide,
    /// A ground dash waits to hear whether it has slowed to walk speed.
    GroundDashSlowed { slide: SlideResult },
    /// Hitstun has moved and waits for the slide result.
    HitStunSlide,
    /// An aerial attack has moved and waits for the slide result.
    AerialSlide,
    /// An aerial attack landed; it looks at its animation once more.
    AerialLanded { slide: SlideResult },
}

impl Resume {
    /// The reply that this point of the frame waits for.
    pub open spec fn accepts(self, reply: Reply) -> bool {
        match self {
            Resume::Rising { .. } | Resume::GroundDashSlowed { .. } => reply is Flag,
            Resume::FallSlide { .. } | Resume::AirDashSlide | Resume::GroundDashSlide
            | Resume::HitStunSlide | Resume::AerialSlide => reply is Slid,
            _ => reply is Nothing,
        }
    }
}

/// The commands of one step and how the frame goes on.
pub struct Step {
    pub commands: Vec<Command>,
    pub next: Next,
}

/// The discrete state of a fighter: its counters, its state machine and its bookkeeping.
/// Velocities and other real-valued quantities live with the body.
pub struct Fighter2D {
    pub max_health: u32,
    pub current_health: u32,
    /// The number of times the fighter can jump in midair.
    pub air_jump_count: u32,
    pub ground_dash_frames: u32,
    pub airdash_frames: u32,
    /// How many airdashes can be performed before touching the ground. Each air dash also
    /// needs and spends an air jump, so this bounds air dashes on top of `air_jump_count`.
    pub airdash_count: u32,
    /// How many air jumps we have left; an air dash uses one up as well.
    pub jumps_remaining: u32,
    /// How many airdashes we have left before touching the ground.
    pub airdashes_remaining: u32,
    /// How many frames of dash we have left.
    pub dash_frames_remaining: u32,
    pub fastfall: bool,
    /// Number of frames left of hitstun.
    pub hitstun_frames_remaining: u32,
    /// The number of iframes remaining.
    pub iframes_remaining: u32,
    pub state: FighterState,
    pub facing: FacingDirection,
    pub attack_contact: bool,
    /// Where the frame under way stands.
    pub resume: Resume,
}

impl Fighter2D {
    /// The fighter's invariant: the configured dash lengths are positive, it never has more
    /// air jumps or airdashes left than it is allowed, a dash in progress has a frame left to
    /// run, and a routine about to run is that of the fighter's state (an air jump rises
    /// with the routine of a jump).
    pub open spec fn wf(self) -> bool {
        &&& self.ground_dash_frames >= 1
        &&& self.airdash_frames >= 1
        &&& self.jumps_remaining <= self.air_jump_count
        &&& self.airdashes_remaining <= self.airdash_count
        &&& match self.resume {
            Resume::Process(s) => s == self.state || (s == FighterState::Jumping && self.state
                == FighterState::AirJump),
            _ => true,
        }
        &&& match self.resume {
            Resume::GroundDashSlide | Resume::AirDashSlide => true,
            Resume::GroundDashSlowed { .. } => self.dash_frames_remaining >= 1,
            Resume::Process(s) => (is_dash(s) || is_dash(self.state)) ==> self.dash_frames_remaining
                >= 1,
            _ => is_dash(self.state) ==> self.dash_frames_remaining >= 1,
        }
    }

    /// A fighter as the scene creates it, with the default configuration.
    pub fn new() -> (r: Self)
        ensures
            r.wf(),
            r.max_health == 1000,
            r.current_health == 0,
            r.air_jump_count == 1,
            r.ground_dash_frames == 24,
            r.airdash_frames == 12,
            r.airdash_count == 1,
            r.jumps_remaining == 0,
            r.airdashes_remaining == 0,
            r.dash_frames_remaining == 0,
            !r.fastfall,
            r.hitstun_frames_remaining == 0,
            r.iframes_remaining == 0,
            r.state == FighterState::Init,
            r.facing == FacingDirection::Right,
            !r.attack_contact,
            r.resume == Resume::Idle,
    {
        Fighter2D {
            max_health: 1000,
            current_health: 0,
            air_jump_count: 1,
            ground_dash_frames: 24,
            airdash_frames: 12,
            airdash_count: 1,
            jumps_remaining: 0,
            airdashes_remaining: 0,
            dash_frames_remaining: 0,
            fastfall: false,
            hitstun_frames_remaining: 0,
            iframes_remaining: 0,
            state: FighterState::Init,
            facing: FacingDirection::Right,
            attack_contact: false,
            resume: Resume::Idle,
        }
    }

    /// On entering the scene the fighter starts with full health.
    pub fn enter_tree(&mut self)
        ensures
            *final(self) == (Fighter2D { current_health: old(self).max_health, ..*old(self) }),
    {
        self.current_health = self.max_health;
    }

    /// Whether an attack in progress may be cancelled: it has hit something, or its
    /// animation says so, or its animation is over.
    pub open spec fn spec_can_cancel_attack(self, anim: AnimationState) -> bool {
        self.attack_contact || anim.cancellable || anim.anim_finished
    }

    /// Whether an attack in progress may be cancelled into another move.
    pub fn can_cancel_attack(&self, anim: AnimationState) -> (r: bool)
        ensures
            r == self.spec_can_cancel_attack(anim),
    {
        self.attack_contact || anim.cancellable || anim.anim_finished
    }

    /// One of the fighter's own attacks hit something.
    pub fn attack_hit(&mut self)
        ensures
            *final(self) == (Fighter2D { attack_contact: true, ..*old(self) }),
    {
        self.attack_contact = true;
    }

    /// A fighter can be hit exactly when it has no invincibility frames left.
    pub fn vulnerable(&self) -> (r: bool)
        ensures
            r == (self.iframes_remaining == 0),
    {
        self.iframes_remaining == 0
    }
}

} // verus!
