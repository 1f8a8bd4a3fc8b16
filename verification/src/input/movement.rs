use vstd::prelude::*;

verus! {

/// The direction of one input axis: towards its positive end, at rest, or towards its
/// negative end.
#[derive(Debug, Clone, Copy, PartialEq, Eq, Hash, Structural)]
pub enum AxisDir {
    Positive,
    Neutral,
    Negative,
}

impl Default for AxisDir {
    fn default() -> (r: Self)
        ensures
            r == AxisDir::Neutral,
    {
        AxisDir::Neutral
    }
}

impl AxisDir {
    /// The signed unit integer of the direction.
    pub open spec fn spec_to_i32(self) -> i32 {
        match self {
            AxisDir::Positive => 1i32,
            AxisDir::Neutral => 0i32,
            AxisDir::Negative => -1i32,
        }
    }

    /// The direction as `1`, `0` or `-1`.
    pub fn to_i32(self) -> (r: i32)
        ensures
            r == self.spec_to_i32(),
    {
        match self {
            AxisDir::Positive => 1,
            AxisDir::Neutral => 0,
            AxisDir::Negative => -1,
        }
    }
}

/// The stick direction of one frame, split into its two axes.
#[derive(Debug, Clone, Copy, PartialEq, Eq, Hash, Structural)]
pub struct MovementFrame {
    pub vertical: AxisDir,
    pub horizontal: AxisDir,
}

impl Default for MovementFrame {
    fn default() -> (r: Self)
        ensures
            r == MovementFrame::spec_neutral(),
    {
        MovementFrame::neutral()
    }
}

impl MovementFrame {
    /// The frame in which the stick rests on both axes.
    pub open spec fn spec_neutral() -> MovementFrame {
        MovementFrame { vertical: AxisDir::Neutral, horizontal: AxisDir::Neutral }
    }

    /// The frame in which the stick rests on both axes.
    pub fn neutral() -> (r: Self)
        ensures
            r == Self::spec_neutral(),
    {
        MovementFrame { vertical: AxisDir::Neutral, horizontal: AxisDir::Neutral }
    }

    /// A frame that asks for a fastfall: straight down, nothing sideways.
    pub open spec fn spec_is_fastfall(self) -> bool {
        self.vertical == AxisDir::Negative && self.horizontal == AxisDir::Neutral
    }

    /// Whether this frame points straight down.
    pub fn is_fastfall(self) -> (r: bool)
        ensures
            r == self.spec_is_fastfall(),
    {
        self.vertical == AxisDir::Negative && self.horizontal == AxisDir::Neutral
    }
}

} // verus!
