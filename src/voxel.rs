use vstd::prelude::*;

verus! {

/// The closed set of block kinds. `Air` is the empty sentinel; every other
/// kind is solid.
#[derive(Clone, Copy, Debug, PartialEq, Eq, Structural)]
pub enum Voxel {
    Air,
    Grass,
    Dirt,
    Wood,
    Leaf,
    LeafRed,
    LeafGreen,
    Sand,
}

/// Base colour of each block kind, as red, green and blue bytes.
pub open spec fn rgb(v: Voxel) -> (u8, u8, u8) {
    match v {
        Voxel::Air => (0, 0, 0),
        Voxel::Grass => (144, 224, 72),
        Voxel::Dirt => (79, 48, 43),
        Voxel::Wood => (85, 51, 17),
        Voxel::Leaf => (252, 186, 3),
        Voxel::LeafRed => (223, 57, 8),
        Voxel::LeafGreen => (167, 159, 15),
        Voxel::Sand => (233, 225, 194),
    }
}

/// The three canopy colours a tree may take, by draw index.
pub open spec fn leaf_kind(pick: int) -> Voxel {
    if pick == 0 {
        Voxel::Leaf
    } else if pick == 1 {
        Voxel::LeafGreen
    } else {
        Voxel::LeafRed
    }
}

impl Voxel {
    pub open spec fn solid(self) -> bool {
        self != Voxel::Air
    }

    pub fn is_air(&self) -> (r: bool)
        ensures
            r == !self.solid(),
    {
        match self {
            Voxel::Air => true,
            _ => false,
        }
    }

    /// The colour used to draw this block kind; `Air` is never drawn and
    /// reports black.
    pub fn color(&self) -> (r: (u8, u8, u8))
        ensures
            r == rgb(*self),
    {
        match self {
            Voxel::Air => (0, 0, 0),
            Voxel::Grass => (144, 224, 72),
            Voxel::Dirt => (79, 48, 43),
            Voxel::Wood => (85, 51, 17),
            Voxel::Leaf => (252, 186, 3),
            Voxel::LeafRed => (223, 57, 8),
            Voxel::LeafGreen => (167, 159, 15),
            Voxel::Sand => (233, 225, 194),
        }
    }

    /// Canopy colour for a draw in `0..3`.
    pub fn leaf(pick: usize) -> (r: Voxel)
        requires
            pick < 3,
        ensures
            r == leaf_kind(pick as int),
            r == Voxel::Leaf || r == Voxel::LeafGreen || r == Voxel::LeafRed,
    {
        if pick == 0 {
            Voxel::Leaf
        } else if pick == 1 {
            Voxel::LeafGreen
        } else {
            Voxel::LeafRed
        }
    }
}

} // verus!
