use vstd::prelude::*;

use crate::utils::EnumCycle;

verus! {

/// The sprite sheets the game loads, in the order they are numbered.
#[derive(Clone, Copy, Debug, PartialEq, Eq, Structural)]
pub enum SpriteSheetType {
    Tiles,
    Didi,
    Snap,
    Ui,
    Animation,
    RollingHillsBg,
}

impl SpriteSheetType {
    /// Number of sprite sheet kinds.
    pub open spec fn count() -> nat {
        6
    }

    /// Position of the variant in declaration order.
    pub open spec fn position(self) -> nat {
        match self {
            SpriteSheetType::Tiles => 0,
            SpriteSheetType::Didi => 1,
            SpriteSheetType::Snap => 2,
            SpriteSheetType::Ui => 3,
            SpriteSheetType::Animation => 4,
            SpriteSheetType::RollingHillsBg => 5,
        }
    }

    /// The variant at a position in declaration order.
    pub open spec fn at_position(i: nat) -> SpriteSheetType {
        if i == 0 {
            SpriteSheetType::Tiles
        } else if i == 1 {
            SpriteSheetType::Didi
        } else if i == 2 {
            SpriteSheetType::Snap
        } else if i == 3 {
            SpriteSheetType::Ui
        } else if i == 4 {
            SpriteSheetType::Animation
        } else {
            SpriteSheetType::RollingHillsBg
        }
    }

    /// The number the sprite sheet is stored under (its position).
    pub fn number(&self) -> (n: u8)
        ensures
            n == self.position(),
    {
        match self {
            SpriteSheetType::Tiles => 0,
            SpriteSheetType::Didi => 1,
            SpriteSheetType::Snap => 2,
            SpriteSheetType::Ui => 3,
            SpriteSheetType::Animation => 4,
            SpriteSheetType::RollingHillsBg => 5,
        }
    }

    /// The variant with the given number; numbers past the last wrap around.
    pub fn from_number(n: usize) -> (r: SpriteSheetType)
        ensures
            r == Self::at_position((n % 6) as nat),
    {
        let i = n % 6;
        if i == 0 {
            SpriteSheetType::Tiles
        } else if i == 1 {
            SpriteSheetType::Didi
        } else if i == 2 {
            SpriteSheetType::Snap
        } else if i == 3 {
            SpriteSheetType::Ui
        } else if i == 4 {
            SpriteSheetType::Animation
        } else {
            SpriteSheetType::RollingHillsBg
        }
    }
}

impl Default for SpriteSheetType {
    fn default() -> (r: Self)
        ensures
            r == SpriteSheetType::Tiles,
    {
        SpriteSheetType::Tiles
    }
}

impl EnumCycle for SpriteSheetType {
    open spec fn cycle_next(&self) -> Self {
        Self::at_position(((self.position() + 1) % Self::count()) as nat)
    }

    open spec fn cycle_prev(&self) -> Self {
        Self::at_position(((self.position() + Self::count() - 1) as int % Self::count() as int) as nat)
    }

    fn next(&self) -> (r: Self) {
        let index: usize = self.number() as usize + 1;
        let index: usize = if index >= 6 { 0 } else { index };
        Self::from_number(index)
    }

    fn prev(&self) -> (r: Self) {
        let mut index: usize = self.number() as usize;
        if index == 0 {
            index = 6;
        }
        index = index - 1;
        Self::from_number(index)
    }
}

/// Stepping to the next sheet and back, or back and forward, returns to the
/// sheet; the next sheet is another one; six steps forward go all the way round.
pub proof fn lemma_sprite_sheet_cycle(x: SpriteSheetType)
    ensures
        x.cycle_next().cycle_prev() == x,
        x.cycle_prev().cycle_next() == x,
        x.cycle_next() != x,
        x.cycle_next().cycle_next().cycle_next().cycle_next().cycle_next().cycle_next() == x,
{
    match x {
        SpriteSheetType::Tiles => {},
        SpriteSheetType::Didi => {},
        SpriteSheetType::Snap => {},
        SpriteSheetType::Ui => {},
        SpriteSheetType::Animation => {},
        SpriteSheetType::RollingHillsBg => {},
    }
}

} // verus!
