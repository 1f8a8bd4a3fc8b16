use vstd::prelude::*;

pub mod ai;
pub mod device_map;
pub mod movement;
pub mod player;

pub use movement::{AxisDir, MovementFrame};
pub use ai::{AiSenses, FighterControllerAi};
pub use device_map::{InputAction, InputChannel};
pub use player::{FighterControllerPlayer, QueuedAction};

use crate::fighter::Fighter2D;

verus! {

/// The discrete actions a fighter can be asked to perform.
#[derive(Debug, Clone, Copy, PartialEq, Eq, Hash, PartialOrd, Ord, Structural)]
pub enum Action {
    AttackLight,
    AttackHeavy,
    Dash,
    Jump,
}

/// A source of decisions for a fighter: where to walk and which move to make next.
///
/// Each query is a function of the controller's state (and of the fighter that asks);
/// only `consume_action` changes the controller, and it hands out the action that
/// `peek_action` shows.
pub trait FighterController: Sized {
    /// The horizontal direction the controller holds.
    spec fn spec_horizontal(&self, fighter: Fighter2D) -> AxisDir;

    /// The action the controller offers, if any.
    spec fn spec_action(&self, fighter: Fighter2D) -> Option<Action>;

    /// The controller after its action has been taken.
    spec fn spec_consumed(&self, fighter: Fighter2D) -> Self;

    /// Whether the controller keeps holding a jump.
    spec fn spec_maintain_jump(&self, fighter: Fighter2D) -> bool;

    /// Whether the controller keeps holding a dash.
    spec fn spec_maintain_dash(&self, fighter: Fighter2D) -> bool;

    /// Whether the controller asks for a fastfall.
    spec fn spec_wants_fastfall(&self, fighter: Fighter2D) -> bool;

    fn current_horizontal(&self, fighter: &Fighter2D) -> (r: AxisDir)
        ensures
            r == self.spec_horizontal(*fighter),
    ;

    fn consume_action(&mut self, fighter: &Fighter2D) -> (r: Option<Action>)
        ensures
            r == old(self).spec_action(*fighter),
            *final(self) == old(self).spec_consumed(*fighter),
    ;

    fn peek_action(&self, fighter: &Fighter2D) -> (r: Option<Action>)
        ensures
            r == self.spec_action(*fighter),
    ;

    fn should_maintain_jump(&self, fighter: &Fighter2D) -> (r: bool)
        ensures
            r == self.spec_maintain_jump(*fighter),
    ;

    fn should_maintain_dash(&self, fighter: &Fighter2D) -> (r: bool)
        ensures
            r == self.spec_maintain_dash(*fighter),
    ;

    fn wants_fastfall(&self, fighter: &Fighter2D) -> (r: bool)
        ensures
            r == self.spec_wants_fastfall(*fighter),
    ;
}

/// The controller of a fighter that nobody controls: it holds nothing and offers nothing.
pub struct NoController;

impl FighterController for NoController {
    open spec fn spec_horizontal(&self, fighter: Fighter2D) -> AxisDir {
        AxisDir::Neutral
    }

    open spec fn spec_action(&self, fighter: Fighter2D) -> Option<Action> {
        None
    }

    open spec fn spec_consumed(&self, fighter: Fighter2D) -> Self {
        NoController
    }

    open spec fn spec_maintain_jump(&self, fighter: Fighter2D) -> bool {
        false
    }

    open spec fn spec_maintain_dash(&self, fighter: Fighter2D) -> bool {
        false
    }

    open spec fn spec_wants_fastfall(&self, fighter: Fighter2D) -> bool {
        false
    }

    fn current_horizontal(&self, fighter: &Fighter2D) -> (r: AxisDir) {
        AxisDir::Neutral
    }

    fn consume_action(&mut self, fighter: &Fighter2D) -> (r: Option<Action>) {
        None
    }

    fn peek_action(&self, fighter: &Fighter2D) -> (r: Option<Action>) {
        None
    }

    fn should_maintain_jump(&self, fighter: &Fighter2D) -> (r: bool) {
        false
    }

    fn should_maintain_dash(&self, fighter: &Fighter2D) -> (r: bool) {
        false
    }

    fn wants_fastfall(&self, fighter: &Fighter2D) -> (r: bool) {
        false
    }
}

} // verus!
