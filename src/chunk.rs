use vstd::prelude::*;
use crate::voxel::Voxel;

verus! {

/// Edge length of the generated part of a chunk.
pub const CHUNK_SIZE: usize = 16;

/// Edge length of a chunk's grid: the generated part plus one padding cell
/// on each side.
pub const PADDED_SIZE: usize = 18;

/// Number of cells in a chunk's grid.
pub const CELL_COUNT: usize = 5832;

/// A local index on one axis that lies in the padded grid.
pub open spec fn in_padded(v: int) -> bool {
    0 <= v < 18
}

/// A local index on one axis that lies in the generated part of the grid.
pub open spec fn in_interior(v: int) -> bool {
    1 <= v <= 16
}

pub open spec fn in_grid(x: int, y: int, z: int) -> bool {
    in_padded(x) && in_padded(y) && in_padded(z)
}

pub open spec fn is_interior(x: int, y: int, z: int) -> bool {
    in_interior(x) && in_interior(y) && in_interior(z)
}

/// Position of local cell `(x, y, z)` in the flat grid: layers by `y`,
/// rows by `x`, cells by `z`.
pub open spec fn cell_index(x: int, y: int, z: int) -> int {
    (y * 18 + x) * 18 + z
}

pub proof fn lemma_cell_index_bounds(x: int, y: int, z: int)
    requires
        in_grid(x, y, z),
    ensures
        0 <= cell_index(x, y, z) < 5832,
{
}

pub proof fn lemma_cell_index_injective(x: int, y: int, z: int, a: int, b: int, c: int)
    requires
        in_grid(x, y, z),
        in_grid(a, b, c),
        cell_index(x, y, z) == cell_index(a, b, c),
    ensures
        x == a && y == b && z == c,
{
}

/// The contents of a grid, as a function of the local cell.
pub type Grid = spec_fn(int, int, int) -> Voxel;

/// One of the six axis directions from a voxel to a neighbouring cell.
#[derive(Clone, Copy, Debug, PartialEq, Eq, Structural)]
pub enum Direction {
    PosY,
    NegY,
    PosX,
    NegX,
    PosZ,
    NegZ,
}

/// Which of a voxel's six faces border empty space.
#[derive(Clone, Copy, Debug, PartialEq, Eq, Structural)]
pub struct Faces {
    pub pos_y: bool,
    pub neg_y: bool,
    pub pos_x: bool,
    pub neg_x: bool,
    pub pos_z: bool,
    pub neg_z: bool,
}

pub open spec fn no_faces() -> Faces {
    Faces { pos_y: false, neg_y: false, pos_x: false, neg_x: false, pos_z: false, neg_z: false }
}

pub open spec fn face_count(f: Faces) -> int {
    (if f.pos_y { 1int } else { 0int }) + (if f.neg_y { 1int } else { 0int }) + (if f.pos_x {
        1int
    } else {
        0int
    }) + (if f.neg_x { 1int } else { 0int }) + (if f.pos_z { 1int } else { 0int }) + (if f.neg_z {
        1int
    } else {
        0int
    })
}

impl Faces {
    /// Whether the face towards `d` is exposed.
    pub fn exposed(&self, d: Direction) -> (r: bool)
        ensures
            r == match d {
                Direction::PosY => self.pos_y,
                Direction::NegY => self.neg_y,
                Direction::PosX => self.pos_x,
                Direction::NegX => self.neg_x,
                Direction::PosZ => self.pos_z,
                Direction::NegZ => self.neg_z,
            },
    {
        match d {
            Direction::PosY => self.pos_y,
            Direction::NegY => self.neg_y,
            Direction::PosX => self.pos_x,
            Direction::NegX => self.neg_x,
            Direction::PosZ => self.pos_z,
            Direction::NegZ => self.neg_z,
        }
    }

    /// Number of exposed faces.
    pub fn count(&self) -> (r: usize)
        ensures
            r as int == face_count(*self),
            r <= 6,
    {
        let mut n: usize = 0;
        if self.pos_y {
            n = n + 1;
        }
        if self.neg_y {
            n = n + 1;
        }
        if self.pos_x {
            n = n + 1;
        }
        if self.neg_x {
            n = n + 1;
        }
        if self.pos_z {
            n = n + 1;
        }
        if self.neg_z {
            n = n + 1;
        }
        n
    }
}

/// A cubic block of the world: a padded grid of voxels and the chunk's
/// position in chunk space. Only the generated part (local indices
/// `1..=CHUNK_SIZE` on every axis) is ever written; the padding ring stays
/// `Air`.
pub struct Chunk {
    blocks: Vec<Voxel>,
    x: i32,
    y: i32,
    z: i32,
}

impl Chunk {
    /// The voxel at local cell `(x, y, z)`.
    pub closed spec fn cell(&self, x: int, y: int, z: int) -> Voxel {
        self.blocks@[cell_index(x, y, z)]
    }

    /// The chunk's position in chunk space.
    pub closed spec fn coords(&self) -> (i32, i32, i32) {
        (self.x, self.y, self.z)
    }

    pub closed spec fn wf(&self) -> bool {
        &&& self.blocks@.len() == 5832
        &&& forall|x: int, y: int, z: int|
            #![trigger self.blocks@[cell_index(x, y, z)]]
            in_grid(x, y, z) && !is_interior(x, y, z) ==> self.blocks@[cell_index(x, y, z)]
                == Voxel::Air
    }

    /// The chunk's cells as a grid function.
    pub open spec fn grid(&self) -> Grid {
        |x: int, y: int, z: int| self.cell(x, y, z)
    }

    /// The chunk holds `g` in every cell of its grid.
    pub open spec fn agrees(&self, g: Grid) -> bool {
        forall|x: int, y: int, z: int| in_grid(x, y, z) ==> #[trigger] self.cell(x, y, z) == g(x, y, z)
    }

    /// Every cell of the grid is `Air`.
    pub open spec fn is_empty(&self) -> bool {
        forall|x: int, y: int, z: int| in_grid(x, y, z) ==> #[trigger] self.cell(x, y, z) == Voxel::Air
    }

    /// The two chunks hold the same voxels in every cell.
    pub open spec fn same_cells(&self, o: &Chunk) -> bool {
        forall|x: int, y: int, z: int| in_grid(x, y, z) ==> #[trigger] self.cell(x, y, z) == o.cell(x, y, z)
    }

    /// Padding cells of a well-formed chunk are `Air`.
    pub proof fn lemma_padding_air(&self, x: int, y: int, z: int)
        requires
            self.wf(),
            in_grid(x, y, z),
            !is_interior(x, y, z),
        ensures
            self.cell(x, y, z) == Voxel::Air,
    {
        assert(self.blocks@[cell_index(x, y, z)] == Voxel::Air);
    }

    fn index(x: usize, y: usize, z: usize) -> (r: usize)
        requires
            in_grid(x as int, y as int, z as int),
        ensures
            r as int == cell_index(x as int, y as int, z as int),
            r < CELL_COUNT,
    {
        (y * PADDED_SIZE + x) * PADDED_SIZE + z
    }

    /// An empty chunk (all `Air`) at chunk coordinate `(x, y, z)`.
    pub fn new(x: i32, y: i32, z: i32) -> (r: Chunk)
        ensures
            r.wf(),
            r.is_empty(),
            r.coords() == (x, y, z),
    {
        let mut blocks: Vec<Voxel> = Vec::with_capacity(CELL_COUNT);
        let mut n: usize = 0;
        while n < CELL_COUNT
            invariant
                n <= CELL_COUNT,
                blocks@.len() == n,
                forall|k: int| 0 <= k < n ==> blocks@[k] == Voxel::Air,
            decreases CELL_COUNT - n,
        {
            blocks.push(Voxel::Air);
            n = n + 1;
        }
        let r = Chunk { blocks, x, y, z };
        assert forall|x: int, y: int, z: int| in_grid(x, y, z) implies #[trigger] r.cell(x, y, z)
            == Voxel::Air by {
            lemma_cell_index_bounds(x, y, z);
        }
        r
    }

    /// The chunk's position in chunk space.
    pub fn coord(&self) -> (r: (i32, i32, i32))
        ensures
            r == self.coords(),
    {
        (self.x, self.y, self.z)
    }

    /// The voxel at local cell `(x, y, z)`; padding cells may be read too.
    pub fn voxel_at(&self, x: usize, y: usize, z: usize) -> (r: Voxel)
        requires
            self.wf(),
            in_grid(x as int, y as int, z as int),
        ensures
            r == self.cell(x as int, y as int, z as int),
    {
        self.blocks[Self::index(x, y, z)]
    }

    /// Writes `v` into the generated cell `(x, y, z)`.
    pub fn set_voxel(&mut self, x: usize, y: usize, z: usize, v: Voxel)
        requires
            old(self).wf(),
            is_interior(x as int, y as int, z as int),
        ensures
            final(self).wf(),
            final(self).coords() == old(self).coords(),
            final(self).cell(x as int, y as int, z as int) == v,
            forall|a: int, b: int, c: int|
                in_grid(a, b, c) && !(a == x && b == y && c == z) ==> #[trigger] final(self).cell(
                    a,
                    b,
                    c,
                ) == old(self).cell(a, b, c),
    {
        let i = Self::index(x, y, z);
        self.blocks.set(i, v);
        assert forall|a: int, b: int, c: int|
            in_grid(a, b, c) && !(a == x && b == y && c == z) implies #[trigger] self.cell(a, b, c)
            == old(self).cell(a, b, c) by {
            lemma_cell_index_bounds(a, b, c);
            if cell_index(a, b, c) == i {
                lemma_cell_index_injective(a, b, c, x as int, y as int, z as int);
            }
        }
        assert forall|a: int, b: int, c: int|
            in_grid(a, b, c) && !is_interior(a, b, c) implies #[trigger] self.blocks@[cell_index(
            a,
            b,
            c,
        )] == Voxel::Air by {
            lemma_cell_index_bounds(a, b, c);
            if cell_index(a, b, c) == i {
                lemma_cell_index_injective(a, b, c, x as int, y as int, z as int);
            }
            assert(old(self).blocks@[cell_index(a, b, c)] == Voxel::Air);
        }
    }

    /// The voxel in the cell next to `(x, y, z)` towards `d`. Below the
    /// lowest generated layer the world has a dirt floor; every other
    /// direction reads the grid, so the padding answers `Air`.
    pub open spec fn neighbor(&self, x: int, y: int, z: int, d: Direction) -> Voxel {
        match d {
            Direction::PosY => self.cell(x, y + 1, z),
            Direction::NegY => if y == 1 {
                Voxel::Dirt
            } else {
                self.cell(x, y - 1, z)
            },
            Direction::PosX => self.cell(x + 1, y, z),
            Direction::NegX => self.cell(x - 1, y, z),
            Direction::PosZ => self.cell(x, y, z + 1),
            Direction::NegZ => self.cell(x, y, z - 1),
        }
    }

    /// Whether the face of the voxel at `(x, y, z)` towards `d` must be
    /// drawn: the voxel is solid and its neighbour that way is `Air`.
    pub open spec fn face_exposed(&self, x: int, y: int, z: int, d: Direction) -> bool {
        self.cell(x, y, z).solid() && self.neighbor(x, y, z, d) == Voxel::Air
    }

    pub open spec fn faces(&self, x: int, y: int, z: int) -> Faces {
        Faces {
            pos_y: self.face_exposed(x, y, z, Direction::PosY),
            neg_y: self.face_exposed(x, y, z, Direction::NegY),
            pos_x: self.face_exposed(x, y, z, Direction::PosX),
            neg_x: self.face_exposed(x, y, z, Direction::NegX),
            pos_z: self.face_exposed(x, y, z, Direction::PosZ),
            neg_z: self.face_exposed(x, y, z, Direction::NegZ),
        }
    }

    /// The voxel next to the generated cell `(x, y, z)` towards `d`.
    pub fn get_neighbor(&self, x: usize, y: usize, z: usize, d: Direction) -> (r: Voxel)
        requires
            self.wf(),
            is_interior(x as int, y as int, z as int),
        ensures
            r == self.neighbor(x as int, y as int, z as int, d),
    {
        match d {
            Direction::PosY => self.voxel_at(x, y + 1, z),
            Direction::NegY => {
                if y == 1 {
                    Voxel::Dirt
                } else {
                    self.voxel_at(x, y - 1, z)
                }
            },
            Direction::PosX => self.voxel_at(x + 1, y, z),
            Direction::NegX => self.voxel_at(x - 1, y, z),
            Direction::PosZ => self.voxel_at(x, y, z + 1),
            Direction::NegZ => self.voxel_at(x, y, z - 1),
        }
    }

    /// The faces of the generated cell `(x, y, z)` that border `Air`. An
    /// `Air` cell has nothing to draw and reports no face.
    pub fn exposed_faces(&self, x: usize, y: usize, z: usize) -> (r: Faces)
        requires
            self.wf(),
            is_interior(x as int, y as int, z as int),
        ensures
            r == self.faces(x as int, y as int, z as int),
    {
        let solid = !self.voxel_at(x, y, z).is_air();
        Faces {
            pos_y: solid && self.get_neighbor(x, y, z, Direction::PosY).is_air(),
            neg_y: solid && self.get_neighbor(x, y, z, Direction::NegY).is_air(),
            pos_x: solid && self.get_neighbor(x, y, z, Direction::PosX).is_air(),
            neg_x: solid && self.get_neighbor(x, y, z, Direction::NegX).is_air(),
            pos_z: solid && self.get_neighbor(x, y, z, Direction::PosZ).is_air(),
            neg_z: solid && self.get_neighbor(x, y, z, Direction::NegZ).is_air(),
        }
    }

    /// Sets the inner cells of layer `layer` (`x` and `z` in
    /// `1..CHUNK_SIZE - 1`) to `voxel`.
    pub fn fill_layer(&mut self, layer: usize, voxel: Voxel)
        requires
            old(self).wf(),
            in_interior(layer as int),
        ensures
            final(self).wf(),
            final(self).coords() == old(self).coords(),
            forall|a: int, b: int, c: int|
                in_grid(a, b, c) ==> #[trigger] final(self).cell(a, b, c) == if b == layer && 1
                    <= a < 15 && 1 <= c < 15 {
                    voxel
                } else {
                    old(self).cell(a, b, c)
                },
    {
        let mut x: usize = 1;
        while x < CHUNK_SIZE - 1
            invariant
                1 <= x <= 15,
                in_interior(layer as int),
                self.wf(),
                self.coords() == old(self).coords(),
                forall|a: int, b: int, c: int|
                    in_grid(a, b, c) ==> #[trigger] self.cell(a, b, c) == if b == layer && 1 <= a
                        < x && 1 <= c < 15 {
                        voxel
                    } else {
                        old(self).cell(a, b, c)
                    },
            decreases 15 - x,
        {
            let mut z: usize = 1;
            while z < CHUNK_SIZE - 1
                invariant
                    1 <= x < 15,
                    1 <= z <= 15,
                    in_interior(layer as int),
                    self.wf(),
                    self.coords() == old(self).coords(),
                    forall|a: int, b: int, c: int|
                        in_grid(a, b, c) ==> #[trigger] self.cell(a, b, c) == if b == layer && ((1
                            <= a < x && 1 <= c < 15) || (a == x && 1 <= c < z)) {
                            voxel
                        } else {
                            old(self).cell(a, b, c)
                        },
                decreases 15 - z,
            {
                self.set_voxel(x, layer, z, voxel);
                z = z + 1;
            }
            x = x + 1;
        }
    }
}

/// The faces a voxel exposes depend on the chunk's cells alone: two chunks
/// with the same cells report the same faces at every generated cell, so
/// asking twice of an unchanged chunk gives the same answer.
pub proof fn lemma_faces_determined_by_cells(a: &Chunk, b: &Chunk, x: int, y: int, z: int)
    requires
        a.same_cells(b),
        is_interior(x, y, z),
    ensures
        a.faces(x, y, z) == b.faces(x, y, z),
{
}

/// A voxel whose six neighbours are all solid exposes no face.
pub proof fn lemma_buried_voxel_hidden(c: &Chunk, x: int, y: int, z: int)
    requires
        is_interior(x, y, z),
        c.neighbor(x, y, z, Direction::PosY).solid(),
        c.neighbor(x, y, z, Direction::NegY).solid(),
        c.neighbor(x, y, z, Direction::PosX).solid(),
        c.neighbor(x, y, z, Direction::NegX).solid(),
        c.neighbor(x, y, z, Direction::PosZ).solid(),
        c.neighbor(x, y, z, Direction::NegZ).solid(),
    ensures
        c.faces(x, y, z) == no_faces(),
{
}

/// The dirt floor hides the underside of every voxel in the lowest
/// generated layer.
pub proof fn lemma_floor_face_hidden(c: &Chunk, x: int, z: int)
    ensures
        !c.faces(x, 1, z).neg_y,
{
}

impl Default for Chunk {
    /// An empty chunk at the origin of chunk space.
    fn default() -> (r: Chunk)
        ensures
            r.wf(),
            r.is_empty(),
            r.coords() == (0i32, 0i32, 0i32),
    {
        Chunk::new(0, 0, 0)
    }
}

} // verus!
