use vstd::prelude::*;

use crate::fighter::{Fighter2D, FighterState};
use crate::input::{Action, AxisDir, FighterController};

verus! {

/// What the computer player perceives, from its delayed view of itself and of its
/// opponent.
#[derive(Debug, Clone, Copy, PartialEq, Eq, Structural)]
pub struct AiSenses {
    /// The state the fighter was in, as the fighter remembers itself.
    pub self_state: FighterState,
    /// The opponent stands to the right (the horizontal distance has a positive sign).
    pub opp_to_right: bool,
    /// The opponent is at least the heavy attack distance away horizontally.
    pub far: bool,
    /// The opponent is at least the jump distance higher up.
    pub opp_high: bool,
    /// The opponent is not higher up at all.
    pub opp_not_above: bool,
    /// The fighter faces the opponent.
    pub facing_opp: bool,
}

/// A computer-controlled controller. It reacts to what it senses; it has no senses while
/// either of its delayed views is still empty.
pub struct FighterControllerAi {
    pub enable: bool,
    /// Frames by which its view of the opponent lags.
    pub reaction_delay: u32,
    /// Frames by which its view of itself lags.
    pub self_delay: u32,
    pub senses: Option<AiSenses>,
}

impl FighterControllerAi {
    /// A controller as the scene creates it: enabled, reacting twelve frames late to the
    /// opponent and six frames late to itself, with nothing sensed yet.
    pub fn new() -> (r: Self)
        ensures
            r.enable,
            r.reaction_delay == 12,
            r.self_delay == 6,
            r.senses == None::<AiSenses>,
    {
        FighterControllerAi { enable: true, reaction_delay: 12, self_delay: 6, senses: None }
    }

    /// Where the computer player walks: towards the opponent when far away or facing away,
    /// else nowhere.
    pub open spec fn spec_current_horizontal(&self) -> AxisDir {
        if !self.enable {
            AxisDir::Neutral
        } else {
            match self.senses {
                None => AxisDir::Neutral,
                Some(s) => if s.far || !s.facing_opp {
                    if s.opp_to_right {
                        AxisDir::Positive
                    } else {
                        AxisDir::Negative
                    }
                } else {
                    AxisDir::Neutral
                },
            }
        }
    }

    pub fn current_horizontal(&self) -> (r: AxisDir)
        ensures
            r == self.spec_current_horizontal(),
    {
        if !self.enable {
            return AxisDir::Neutral;
        }
        match self.senses {
            None => AxisDir::Neutral,
            Some(s) => {
                if s.far || !s.facing_opp {
                    if s.opp_to_right {
                        AxisDir::Positive
                    } else {
                        AxisDir::Negative
                    }
                } else {
                    AxisDir::Neutral
                }
            },
        }
    }

    /// The computer player's next move, by the state it remembers itself in: jump after a
    /// high opponent, dash after a far one, attack one it faces; always cancel a ground
    /// heavy; jump out of a ground dash.
    pub open spec fn spec_peek_action(&self) -> Option<Action> {
        if !self.enable {
            None
        } else {
            match self.senses {
                None => None,
                Some(s) => match s.self_state {
                    FighterState::Stand | FighterState::Walk | FighterState::AttackGroundLight1
                    | FighterState::AttackGroundLight2 => if s.opp_high {
                        Some(Action::Jump)
                    } else if s.far {
                        Some(Action::Dash)
                    } else if s.facing_opp {
                        Some(Action::AttackLight)
                    } else {
                        None
                    },
                    FighterState::AttackGroundLight3 => if s.opp_high {
                        Some(Action::Jump)
                    } else if s.far {
                        Some(Action::Dash)
                    } else if s.facing_opp {
                        Some(Action::AttackHeavy)
                    } else {
                        None
                    },
                    FighterState::AttackGroundHeavy => if s.opp_high {
                        Some(Action::Jump)
                    } else {
                        Some(Action::Dash)
                    },
                    FighterState::GroundDash => Some(Action::Jump),
                    FighterState::Jumping | FighterState::Falling => if s.opp_high {
                        Some(Action::Jump)
                    } else if s.far {
                        Some(Action::Dash)
                    } else {
                        None
                    },
                    _ => None,
                },
            }
        }
    }

    pub fn peek_action(&self) -> (r: Option<Action>)
        ensures
            r == self.spec_peek_action(),
    {
        if !self.enable {
            return None;
        }
        let s = match self.senses {
            Some(s) => s,
            None => return None,
        };
        match s.self_state {
            FighterState::Stand | FighterState::Walk | FighterState::AttackGroundLight1
            | FighterState::AttackGroundLight2 => {
                if s.opp_high {
                    Some(Action::Jump)
                } else if s.far {
                    Some(Action::Dash)
                } else if s.facing_opp {
                    Some(Action::AttackLight)
                } else {
                    None
                }
            },
            FighterState::AttackGroundLight3 => {
                if s.opp_high {
                    Some(Action::Jump)
                } else if s.far {
                    Some(Action::Dash)
                } else if s.facing_opp {
                    Some(Action::AttackHeavy)
                } else {
                    None
                }
            },
            FighterState::AttackGroundHeavy => {
                if s.opp_high {
                    Some(Action::Jump)
                } else {
                    Some(Action::Dash)
                }
            },
            FighterState::GroundDash => Some(Action::Jump),
            FighterState::Jumping | FighterState::Falling => {
                if s.opp_high {
                    Some(Action::Jump)
                } else if s.far {
                    Some(Action::Dash)
                } else {
                    None
                }
            },
            FighterState::AirDash => None,
            _ => None,
        }
    }

    /// Keep a jump while the opponent is high up.
    pub open spec fn spec_should_maintain_jump(&self) -> bool {
        self.enable && (self.senses matches Some(s) && s.opp_high)
    }

    pub fn should_maintain_jump(&self) -> (r: bool)
        ensures
            r == self.spec_should_maintain_jump(),
    {
        self.enable && match self.senses {
            Some(s) => s.opp_high,
            None => false,
        }
    }

    /// Keep a dash while the opponent is far away and faced.
    pub open spec fn spec_should_maintain_dash(&self) -> bool {
        self.enable && (self.senses matches Some(s) && s.far && s.facing_opp)
    }

    pub fn should_maintain_dash(&self) -> (r: bool)
        ensures
            r == self.spec_should_maintain_dash(),
    {
        self.enable && match self.senses {
            Some(s) => s.far && s.facing_opp,
            None => false,
        }
    }

    /// Fastfall while the opponent is not higher up.
    pub open spec fn spec_wants_fastfall(&self) -> bool {
        self.enable && (self.senses matches Some(s) && s.opp_not_above)
    }

    pub fn wants_fastfall(&self) -> (r: bool)
        ensures
            r == self.spec_wants_fastfall(),
    {
        self.enable && match self.senses {
            Some(s) => s.opp_not_above,
            None => false,
        }
    }
}

/// How the computer player picks its action, for every state it may remember itself in:
/// a high opponent is jumped after first; then a far one is dashed after (distance counts
/// before facing); then a faced one is attacked (light from standing, walking and the first
/// two light hits, heavy after the third light hit); a ground heavy is always cancelled
/// into a jump or a dash; a ground dash is jumped out of; in the air only jumps and dashes
/// are offered; nothing is offered in any other state, while disabled, or without senses.
pub proof fn lemma_ai_action_priorities(ai: FighterControllerAi)
    ensures
        !ai.enable || ai.senses is None ==> ai.spec_peek_action() == None::<Action>,
        ai.enable && ai.senses is Some ==> ({
            let s = ai.senses->0;
            let st = s.self_state;
            let r = ai.spec_peek_action();
            let grounded_light = st == FighterState::Stand || st == FighterState::Walk || st
                == FighterState::AttackGroundLight1 || st == FighterState::AttackGroundLight2;
            let chases = grounded_light || st == FighterState::AttackGroundLight3 || st
                == FighterState::Jumping || st == FighterState::Falling;
            &&& (chases || st == FighterState::AttackGroundHeavy) && s.opp_high ==> r == Some(
                Action::Jump,
            )
            &&& chases && !s.opp_high && s.far ==> r == Some(Action::Dash)
            &&& grounded_light && !s.opp_high && !s.far && s.facing_opp ==> r == Some(
                Action::AttackLight,
            )
            &&& st == FighterState::AttackGroundLight3 && !s.opp_high && !s.far && s.facing_opp
                ==> r == Some(Action::AttackHeavy)
            &&& (grounded_light || st == FighterState::AttackGroundLight3) && !s.opp_high
                && !s.far && !s.facing_opp ==> r == None::<Action>
            &&& (st == FighterState::Jumping || st == FighterState::Falling) && !s.opp_high
                && !s.far ==> r == None::<Action>
            &&& st == FighterState::AttackGroundHeavy && !s.opp_high ==> r == Some(Action::Dash)
            &&& st == FighterState::GroundDash ==> r == Some(Action::Jump)
            &&& !(chases || st == FighterState::AttackGroundHeavy || st
                == FighterState::GroundDash) ==> r == None::<Action>
        }),
{
}

/// How the computer player steers and holds: it walks towards the opponent when the
/// opponent is far or not faced, else stands; it holds a jump while the opponent is high, a
/// dash while the opponent is far and faced, and fastfalls while the opponent is not above;
/// disabled or without senses it does none of these.
pub proof fn lemma_ai_steering_and_holds(ai: FighterControllerAi)
    ensures
        ({
            let on = ai.enable && ai.senses is Some;
            let s = ai.senses->0;
            &&& !on ==> ai.spec_current_horizontal() == AxisDir::Neutral
                && !ai.spec_should_maintain_jump() && !ai.spec_should_maintain_dash()
                && !ai.spec_wants_fastfall()
            &&& on && (s.far || !s.facing_opp) && s.opp_to_right ==> ai.spec_current_horizontal()
                == AxisDir::Positive
            &&& on && (s.far || !s.facing_opp) && !s.opp_to_right
                ==> ai.spec_current_horizontal() == AxisDir::Negative
            &&& on && !s.far && s.facing_opp ==> ai.spec_current_horizontal() == AxisDir::Neutral
            &&& on ==> (ai.spec_should_maintain_jump() <==> s.opp_high)
            &&& on ==> (ai.spec_should_maintain_dash() <==> s.far && s.facing_opp)
            &&& on ==> (ai.spec_wants_fastfall() <==> s.opp_not_above)
        }),
{
}

/// Taking the computer player's action does not use it up: it keeps offering the same
/// action, direction and holds.
pub proof fn lemma_computer_action_not_used_up(ai: FighterControllerAi, f: Fighter2D)
    ensures
        FighterController::spec_action(&FighterController::spec_consumed(&ai, f), f)
            == FighterController::spec_action(&ai, f),
        FighterController::spec_horizontal(&FighterController::spec_consumed(&ai, f), f)
            == FighterController::spec_horizontal(&ai, f),
{
}

impl FighterController for FighterControllerAi {
    open spec fn spec_horizontal(&self, fighter: Fighter2D) -> AxisDir {
        self.spec_current_horizontal()
    }

    open spec fn spec_action(&self, fighter: Fighter2D) -> Option<Action> {
        self.spec_peek_action()
    }

    /// Taking the computer player's action leaves it offering the same one.
    open spec fn spec_consumed(&self, fighter: Fighter2D) -> Self {
        *self
    }

    open spec fn spec_maintain_jump(&self, fighter: Fighter2D) -> bool {
        self.spec_should_maintain_jump()
    }

    open spec fn spec_maintain_dash(&self, fighter: Fighter2D) -> bool {
        self.spec_should_maintain_dash()
    }

    open spec fn spec_wants_fastfall(&self, fighter: Fighter2D) -> bool {
        self.spec_wants_fastfall()
    }

    fn current_horizontal(&self, fighter: &Fighter2D) -> (r: AxisDir) {
        FighterControllerAi::current_horizontal(self)
    }

    fn consume_action(&mut self, fighter: &Fighter2D) -> (r: Option<Action>) {
        FighterControllerAi::peek_action(self)
    }

    fn peek_action(&self, fighter: &Fighter2D) -> (r: Option<Action>) {
        FighterControllerAi::peek_action(self)
    }

    fn should_maintain_jump(&self, fighter: &Fighter2D) -> (r: bool) {
        FighterControllerAi::should_maintain_jump(self)
    }

    fn should_maintain_dash(&self, fighter: &Fighter2D) -> (r: bool) {
        FighterControllerAi::should_maintain_dash(self)
    }

    fn wants_fastfall(&self, fighter: &Fighter2D) -> (r: bool) {
        FighterControllerAi::wants_fastfall(self)
    }
}

/// The opponent a computer player picks among the fighters that share its fighter's parent,
/// given by their ids in scene order: the first that is not its own fighter, if any.
pub fn pick_opponent(own: i64, fighters: &Vec<i64>) -> (r: Option<usize>)
    ensures
        match r {
            Some(i) => i < fighters@.len() && fighters@[i as int] != own && forall|j: int|
                0 <= j < i ==> fighters@[j] == own,
            None => forall|j: int| 0 <= j < fighters@.len() ==> fighters@[j] == own,
        },
{
    let mut i: usize = 0;
    while i < fighters.len()
        invariant
            i <= fighters@.len(),
            forall|j: int| 0 <= j < i ==> fighters@[j] == own,
        decreases fighters@.len() - i,
    {
        if fighters[i] != own {
            return Some(i);
        }
        i = i + 1;
    }
    None
}

} // verus!
