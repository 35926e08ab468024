use vstd::prelude::*;

use crate::utils::EnumCycle;

verus! {

/// Whether the editor cursor may place what it holds where it is.
#[derive(Clone, Copy, Debug, PartialEq, Eq, Structural)]
pub enum EditorCursorState {
    Normal,
    Error,
}

impl Default for EditorCursorState {
    fn default() -> (r: Self)
        ensures
            r == EditorCursorState::Normal,
    {
        EditorCursorState::Normal
    }
}

/// The layer a tile is drawn on.
#[derive(Clone, Copy, Debug, PartialEq, Eq, Structural)]
pub enum TileLayer {
    Middle,
    Front,
    Back,
}

impl Default for TileLayer {
    fn default() -> (r: Self)
        ensures
            r == TileLayer::Middle,
    {
        TileLayer::Middle
    }
}

/// Bit pattern of the `f32` value `5.0`: how far the front layer is drawn
/// before the middle one.
pub const FRONT_Z_OFFSET_BITS: u32 = 0x40a0_0000;

/// Bit pattern of the `f32` value `-5.0`: how far the back layer is drawn
/// behind the middle one.
pub const BACK_Z_OFFSET_BITS: u32 = 0xc0a0_0000;

impl TileLayer {
    /// The depth offset of the layer (an `f32` bit pattern): none for the
    /// middle layer, five units forward for the front, five back for the back.
    pub fn to_z_offset(&self) -> (r: u32)
        ensures
            r == match *self {
                TileLayer::Middle => 0u32,
                TileLayer::Front => FRONT_Z_OFFSET_BITS,
                TileLayer::Back => BACK_Z_OFFSET_BITS,
            },
    {
        match *self {
            TileLayer::Middle => 0,
            TileLayer::Front => FRONT_Z_OFFSET_BITS,
            TileLayer::Back => BACK_Z_OFFSET_BITS,
        }
    }

    /// Number of layers.
    pub open spec fn count() -> nat {
        3
    }

    /// Position of the layer in declaration order.
    pub open spec fn position(self) -> nat {
        match self {
            TileLayer::Middle => 0,
            TileLayer::Front => 1,
            TileLayer::Back => 2,
        }
    }

    /// The layer at a position in declaration order.
    pub open spec fn at_position(i: nat) -> TileLayer {
        if i == 0 {
            TileLayer::Middle
        } else if i == 1 {
            TileLayer::Front
        } else {
            TileLayer::Back
        }
    }

    fn number(&self) -> (n: usize)
        ensures
            n == self.position(),
    {
        match self {
            TileLayer::Middle => 0,
            TileLayer::Front => 1,
            TileLayer::Back => 2,
        }
    }

    /// The layer with the given number; numbers past the last wrap around.
    pub fn from_number(n: usize) -> (r: TileLayer)
        ensures
            r == Self::at_position((n % 3) as nat),
    {
        let i = n % 3;
        if i == 0 {
            TileLayer::Middle
        } else if i == 1 {
            TileLayer::Front
        } else {
            TileLayer::Back
        }
    }
}

impl EnumCycle for TileLayer {
    open spec fn cycle_next(&self) -> Self {
        Self::at_position(((self.position() + 1) % Self::count()) as nat)
    }

    open spec fn cycle_prev(&self) -> Self {
        Self::at_position(((self.position() + Self::count() - 1) as int % Self::count() as int) as nat)
    }

    fn next(&self) -> (r: Self) {
        let index: usize = self.number() + 1;
        let index: usize = if index >= 3 { 0 } else { index };
        Self::from_number(index)
    }

    fn prev(&self) -> (r: Self) {
        let mut index: usize = self.number();
        if index == 0 {
            index = 3;
        }
        index = index - 1;
        Self::from_number(index)
    }
}

/// The mode the level editor is in.
#[derive(Clone, Copy, Debug, PartialEq, Eq, Structural)]
pub enum EditorState {
    EditMode,
    EditGameObject,
    InsertMode,
}

impl Default for EditorState {
    fn default() -> (r: Self)
        ensures
            r == EditorState::EditMode,
    {
        EditorState::EditMode
    }
}

/// The entity the editor cursor was in, by id, if any.
#[derive(Clone, Copy, Debug, PartialEq, Eq, Structural)]
pub struct CursorWasInThisEntity(pub Option<u32>);

/// The instance entity, by id, that an editor entity stands for, if any.
#[derive(Clone, Copy, Debug, PartialEq, Eq, Structural)]
pub struct InstanceEntityId(pub Option<u32>);

/// Stepping to the next layer and back, or back and forward, returns to the
/// layer; the next layer is another one; three steps forward go all the way round.
pub proof fn lemma_tile_layer_cycle(x: TileLayer)
    ensures
        x.cycle_next().cycle_prev() == x,
        x.cycle_prev().cycle_next() == x,
        x.cycle_next() != x,
        x.cycle_next().cycle_next().cycle_next() == x,
{
}

} // verus!
