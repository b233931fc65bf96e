use vstd::prelude::*;

verus! {

/// Facing of an actor: eight compass directions and a sentinel for "no
/// directional input this frame". The ordinal of each variant is used as a
/// multiplier in sprite-index arithmetic, so the order is part of the contract.
#[derive(Clone, Copy, Debug, PartialEq, Eq, Structural)]
pub enum Orientation {
    Up,
    UpRight,
    Right,
    DownRight,
    Down,
    DownLeft,
    Left,
    UpLeft,
    Still,
}

/// Coarse animation state of an actor. The two death stances are terminal.
#[derive(Clone, Copy, Debug, PartialEq, Eq, Structural)]
pub enum Stance {
    Still,
    Walking,
    NormalDeath,
    CriticalDeath,
}

impl Orientation {
    pub open spec fn spec_ordinal(self) -> nat {
        match self {
            Orientation::Up => 0,
            Orientation::UpRight => 1,
            Orientation::Right => 2,
            Orientation::DownRight => 3,
            Orientation::Down => 4,
            Orientation::DownLeft => 5,
            Orientation::Left => 6,
            Orientation::UpLeft => 7,
            Orientation::Still => 8,
        }
    }

    /// Position of the variant in declaration order.
    pub fn ordinal(self) -> (r: usize)
        ensures
            r as nat == self.spec_ordinal(),
            r <= 8,
    {
        match self {
            Orientation::Up => 0,
            Orientation::UpRight => 1,
            Orientation::Right => 2,
            Orientation::DownRight => 3,
            Orientation::Down => 4,
            Orientation::DownLeft => 5,
            Orientation::Left => 6,
            Orientation::UpLeft => 7,
            Orientation::Still => 8,
        }
    }

    pub open spec fn spec_is_still(self) -> bool {
        self == Orientation::Still
    }

    pub fn is_still(self) -> (r: bool)
        ensures
            r == self.spec_is_still(),
    {
        matches!(self, Orientation::Still)
    }
}

impl Stance {
    pub open spec fn spec_is_dead(self) -> bool {
        self == Stance::NormalDeath || self == Stance::CriticalDeath
    }

    /// True for the two terminal death stances.
    pub fn is_dead(self) -> (r: bool)
        ensures
            r == self.spec_is_dead(),
    {
        matches!(self, Stance::NormalDeath | Stance::CriticalDeath)
    }
}

} // verus!
