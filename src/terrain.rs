use vstd::prelude::*;
use crate::chunk::{Chunk, Grid, in_grid, in_interior, is_interior, CHUNK_SIZE};
use crate::voxel::{Voxel, leaf_kind};

verus! {

/// The integer parameters of world generation.
///
/// Chunks are generated for chunk coordinates `chunk_start..chunk_end` on
/// both horizontal axes. A column survives the island cut when its squared
/// distance from the world origin is at most `island_radius²` plus a jitter
/// drawn from `-island_radius_roughness..island_radius_roughness`. A grass
/// column grows a tree when a draw from `0..tree_chance` is 0; its height is
/// drawn from `min_tree_height..max_tree_height`.
#[derive(Clone, Copy, Debug, PartialEq, Eq, Structural)]
pub struct GenConfig {
    pub chunk_start: i32,
    pub chunk_end: i32,
    pub island_radius: i32,
    pub island_radius_roughness: i32,
    pub min_tree_height: usize,
    pub max_tree_height: usize,
    pub tree_chance: usize,
}

impl GenConfig {
    /// The ranges that random draws are taken from are non-empty and small
    /// enough for the generator.
    pub open spec fn valid(&self) -> bool {
        &&& self.chunk_start <= self.chunk_end
        &&& 0 <= self.island_radius_roughness <= 1_000_000
        &&& 1 <= self.min_tree_height < self.max_tree_height <= 1_000_000
        &&& 1 <= self.tree_chance <= 1_000_000
    }
}

impl Default for GenConfig {
    /// Chunks `-2..2` on both axes, an island of radius 26 with a
    /// roughness of 6, trees 4 to 9 voxels tall on one grass column in 50.
    fn default() -> (r: GenConfig)
        ensures
            r == (GenConfig {
                chunk_start: -2i32,
                chunk_end: 2i32,
                island_radius: 26i32,
                island_radius_roughness: 6i32,
                min_tree_height: 4usize,
                max_tree_height: 10usize,
                tree_chance: 50usize,
            }),
            r.valid(),
    {
        GenConfig {
            chunk_start: -2,
            chunk_end: 2,
            island_radius: 26,
            island_radius_roughness: 6,
            min_tree_height: 4,
            max_tree_height: 10,
            tree_chance: 50,
        }
    }
}

/// The shape of one column as the height field gives it: the layer of its
/// surface (0 for a column below the world floor) and whether that surface
/// lies on the beach.
#[derive(Clone, Copy, Debug, PartialEq, Eq, Structural)]
pub struct Column {
    pub height: usize,
    pub beach: bool,
}

/// The random draws that decide one column: the jitter of the island cut,
/// the tree roll, the tree's height and its canopy colour.
#[derive(Clone, Copy, Debug, PartialEq, Eq, Structural)]
pub struct ColumnDraws {
    pub radius_jitter: i32,
    pub tree_roll: usize,
    pub tree_height: usize,
    pub leaf: usize,
}

/// The draws lie in the ranges that `cfg` gives them.
pub open spec fn valid_draws(d: ColumnDraws, cfg: GenConfig) -> bool {
    &&& -cfg.island_radius_roughness <= d.radius_jitter <= cfg.island_radius_roughness
    &&& d.tree_roll < cfg.tree_chance
    &&& cfg.min_tree_height <= d.tree_height < cfg.max_tree_height
    &&& d.leaf < 3
}

/// World coordinate of local index `local` in the chunk at `c`.
pub open spec fn world_coord(c: int, local: int) -> int {
    c * 16 + local
}

/// The island cut: the column at world `(fx, fz)` lies outside the island
/// of radius `radius` for the jitter `jitter`.
pub open spec fn outside_island(fx: int, fz: int, radius: int, jitter: int) -> bool {
    fx * fx + fz * fz > radius * radius + jitter
}

/// Local `x` index of the `k`-th column of a chunk, columns taken row by row.
pub open spec fn column_i(k: int) -> int {
    k / 16 + 1
}

/// Local `z` index of the `k`-th column of a chunk.
pub open spec fn column_j(k: int) -> int {
    k % 16 + 1
}

/// The surface layer of a column, cut at the top of the chunk.
pub open spec fn column_top(col: Column) -> int {
    if col.height > 16 {
        16
    } else {
        col.height as int
    }
}

pub open spec fn surface_of(col: Column) -> Voxel {
    if col.beach {
        Voxel::Sand
    } else {
        Voxel::Grass
    }
}

/// A column is shaped unless the island cut removes it or its surface lies
/// below the world floor.
pub open spec fn column_kept(cx: int, cz: int, cfg: GenConfig, k: int, col: Column, d: ColumnDraws) -> bool {
    !outside_island(
        world_coord(cx, column_i(k)),
        world_coord(cz, column_j(k)),
        cfg.island_radius as int,
        d.radius_jitter as int,
    ) && column_top(col) >= 1
}

/// A kept grass column grows a tree when its roll is 0.
pub open spec fn grows_tree(col: Column, d: ColumnDraws) -> bool {
    d.tree_roll == 0 && !col.beach
}

/// One step of the terrain shaper: the `k`-th column of the chunk at
/// `(cx, cz)` is shaped into `g`, and a tree grown on it when it qualifies.
pub open spec fn column_step(
    g: Grid,
    cx: int,
    cz: int,
    cfg: GenConfig,
    k: int,
    col: Column,
    d: ColumnDraws,
) -> Grid {
    if !column_kept(cx, cz, cfg, k, col, d) {
        g
    } else {
        let s = shaped(g, column_i(k), column_j(k), column_top(col), surface_of(col));
        if grows_tree(col, d) {
            with_tree(
                s,
                column_i(k),
                column_j(k),
                column_top(col),
                d.tree_height as int,
                leaf_kind(d.leaf as int),
            )
        } else {
            s
        }
    }
}

/// The chunk at `(cx, cz)` after its first `n` columns were generated,
/// starting from an all-`Air` grid.
pub open spec fn generated(
    cx: int,
    cz: int,
    cfg: GenConfig,
    cols: Seq<Column>,
    draws: Seq<ColumnDraws>,
    n: nat,
) -> Grid
    decreases n,
{
    if n == 0 {
        |x: int, y: int, z: int| Voxel::Air
    } else {
        column_step(
            generated(cx, cz, cfg, cols, draws, (n - 1) as nat),
            cx,
            cz,
            cfg,
            n - 1,
            cols[n - 1],
            draws[n - 1],
        )
    }
}

/// The grid of the chunk at `(cx, cz)` with all its columns generated.
pub open spec fn chunk_grid(
    cx: int,
    cz: int,
    cfg: GenConfig,
    cols: Seq<Column>,
    draws: Seq<ColumnDraws>,
) -> Grid {
    generated(cx, cz, cfg, cols, draws, 256)
}

/// Number of columns in a chunk.
pub const COLUMN_COUNT: usize = 256;

fn square(v: i64) -> (r: i128)
    requires
        -0x1000_0000_0000 <= v <= 0x1000_0000_0000,
    ensures
        r == v * v,
        0 <= r <= 0x100_0000_0000_0000_0000_0000,
{
    proof {
        assert(0 <= v * v <= 0x100_0000_0000_0000_0000_0000)
            by (nonlinear_arith)
            requires
                -0x1000_0000_0000 <= v <= 0x1000_0000_0000,
        ;
    }
    (v as i128) * (v as i128)
}

/// Whether the column at world `(fx, fz)` is cut from the island of radius
/// `radius` for the jitter `jitter`.
pub fn is_outside_island(fx: i64, fz: i64, radius: i32, jitter: i32) -> (r: bool)
    requires
        -0x1000_0000_0000 <= fx <= 0x1000_0000_0000,
        -0x1000_0000_0000 <= fz <= 0x1000_0000_0000,
    ensures
        r == outside_island(fx as int, fz as int, radius as int, jitter as int),
{
    square(fx) + square(fz) > square(radius as i64) + jitter as i128
}

/// Overwrites column `(i, j)` of `g`: the surface voxel at layer `top` and
/// `Dirt` in every layer from 1 below it.
pub open spec fn shaped(g: Grid, i: int, j: int, top: int, surface: Voxel) -> Grid {
    |x: int, y: int, z: int|
        if x == i && z == j && 1 <= y < top {
            Voxel::Dirt
        } else if x == i && z == j && 1 <= y && y == top {
            surface
        } else {
            g(x, y, z)
        }
}

/// The four horizontal neighbours of column `(i, j)`.
pub open spec fn beside(x: int, z: int, i: int, j: int) -> bool {
    (x == i + 1 && z == j) || (x == i - 1 && z == j) || (x == i && z == j + 1) || (x == i && z
        == j - 1)
}

/// Grows a tree of height `th` on the surface at layer `top` of column
/// `(i, j)`: a `Wood` trunk in the layers strictly between `top` and
/// `top + th`, the canopy colour at layer `top + th`, and the canopy colour in
/// the four horizontal neighbours one layer lower. Cells outside the
/// generated part of the chunk are left alone.
pub open spec fn with_tree(g: Grid, i: int, j: int, top: int, th: int, leaf: Voxel) -> Grid {
    |x: int, y: int, z: int|
        if x == i && z == j && top < y < top + th && y <= 16 {
            Voxel::Wood
        } else if x == i && z == j && y == top + th && y <= 16 {
            leaf
        } else if y == top + th - 1 && y <= 16 && beside(x, z, i, j) && in_interior(x)
            && in_interior(z) {
            leaf
        } else {
            g(x, y, z)
        }
}

impl Chunk {
    /// Fills column `(i, j)` with `Dirt` from layer 1 up to the surface
    /// layer `top`, and puts `surface` at `top`. A column of height 0 is
    /// left alone.
    pub fn shape_column(&mut self, i: usize, j: usize, top: usize, surface: Voxel)
        requires
            old(self).wf(),
            in_interior(i as int),
            in_interior(j as int),
            top <= CHUNK_SIZE,
        ensures
            final(self).wf(),
            final(self).coords() == old(self).coords(),
            final(self).agrees(shaped(old(self).grid(), i as int, j as int, top as int, surface)),
    {
        let mut y: usize = 1;
        while y < top
            invariant
                1 <= y,
                y <= top || y == 1,
                top <= 16,
                in_interior(i as int),
                in_interior(j as int),
                self.wf(),
                self.coords() == old(self).coords(),
                forall|a: int, b: int, c: int|
                    in_grid(a, b, c) ==> #[trigger] self.cell(a, b, c) == if a == i && c == j && 1
                        <= b < y {
                        Voxel::Dirt
                    } else {
                        old(self).cell(a, b, c)
                    },
            decreases top - y,
        {
            self.set_voxel(i, y, j, Voxel::Dirt);
            y = y + 1;
        }
        if top >= 1 {
            self.set_voxel(i, top, j, surface);
        }
        let ghost g = shaped(old(self).grid(), i as int, j as int, top as int, surface);
        assert forall|a: int, b: int, c: int| in_grid(a, b, c) implies #[trigger] self.cell(a, b, c)
            == g(a, b, c) by {}
    }

    /// Grows a tree of height `th` on the surface at layer `top` of column
    /// `(i, j)`; see `with_tree`.
    pub fn grow_tree(&mut self, i: usize, j: usize, top: usize, th: usize, leaf: Voxel)
        requires
            old(self).wf(),
            in_interior(i as int),
            in_interior(j as int),
            1 <= top <= CHUNK_SIZE,
            1 <= th <= 1_000_000,
        ensures
            final(self).wf(),
            final(self).coords() == old(self).coords(),
            final(self).agrees(
                with_tree(old(self).grid(), i as int, j as int, top as int, th as int, leaf),
            ),
    {
        let crown = top + th;
        let mut y: usize = top + 1;
        while y < crown && y <= CHUNK_SIZE
            invariant
                top < y <= crown,
                y <= 17,
                crown == top + th,
                1 <= top <= 16,
                in_interior(i as int),
                in_interior(j as int),
                self.wf(),
                self.coords() == old(self).coords(),
                forall|a: int, b: int, c: int|
                    in_grid(a, b, c) ==> #[trigger] self.cell(a, b, c) == if a == i && c == j && top
                        < b < y {
                        Voxel::Wood
                    } else {
                        old(self).cell(a, b, c)
                    },
            decreases crown - y,
        {
            self.set_voxel(i, y, j, Voxel::Wood);
            y = y + 1;
        }
        if crown <= CHUNK_SIZE {
            self.set_voxel(i, crown, j, leaf);
        }
        let layer = crown - 1;
        if layer <= CHUNK_SIZE {
            if i != CHUNK_SIZE {
                self.set_voxel(i + 1, layer, j, leaf);
            }
            if i != 1 {
                self.set_voxel(i - 1, layer, j, leaf);
            }
            if j != CHUNK_SIZE {
                self.set_voxel(i, layer, j + 1, leaf);
            }
            if j != 1 {
                self.set_voxel(i, layer, j - 1, leaf);
            }
        }
        let ghost g = with_tree(old(self).grid(), i as int, j as int, top as int, th as int, leaf);
        assert forall|a: int, b: int, c: int| in_grid(a, b, c) implies #[trigger] self.cell(a, b, c)
            == g(a, b, c) by {}
    }
}

impl Chunk {
    /// Generates the `k`-th column of this chunk, which stands at chunk
    /// coordinate `(cx, cz)`; see `column_step`.
    pub fn generate_column(
        &mut self,
        cx: i32,
        cz: i32,
        cfg: &GenConfig,
        k: usize,
        col: Column,
        d: ColumnDraws,
    )
        requires
            old(self).wf(),
            cfg.valid(),
            k < COLUMN_COUNT,
            valid_draws(d, *cfg),
        ensures
            final(self).wf(),
            final(self).coords() == old(self).coords(),
            final(self).agrees(
                column_step(old(self).grid(), cx as int, cz as int, *cfg, k as int, col, d),
            ),
    {
        let i = k / CHUNK_SIZE + 1;
        let j = k % CHUNK_SIZE + 1;
        let fx = cx as i64 * 16 + i as i64;
        let fz = cz as i64 * 16 + j as i64;
        if is_outside_island(fx, fz, cfg.island_radius, d.radius_jitter) {
            return;
        }
        let top = if col.height > CHUNK_SIZE {
            CHUNK_SIZE
        } else {
            col.height
        };
        if top == 0 {
            return;
        }
        let surface = if col.beach {
            Voxel::Sand
        } else {
            Voxel::Grass
        };
        self.shape_column(i, j, top, surface);
        if d.tree_roll == 0 && !col.beach {
            self.grow_tree(i, j, top, d.tree_height, Voxel::leaf(d.leaf));
            let ghost g = column_step(old(self).grid(), cx as int, cz as int, *cfg, k as int, col, d);
            assert forall|a: int, b: int, c: int| in_grid(a, b, c) implies #[trigger] self.cell(a, b, c)
                == g(a, b, c) by {}
        }
    }

    /// Generates the chunk at chunk coordinate `(cx, cz)` from the shape of
    /// each of its columns and the draws for each column, column by column.
    pub fn generate_with(
        cx: i32,
        cz: i32,
        cfg: &GenConfig,
        cols: &Vec<Column>,
        draws: &Vec<ColumnDraws>,
    ) -> (r: Chunk)
        requires
            cfg.valid(),
            cols.len() == COLUMN_COUNT,
            draws.len() == COLUMN_COUNT,
            forall|k: int| 0 <= k < COLUMN_COUNT ==> valid_draws(#[trigger] draws@[k], *cfg),
        ensures
            r.wf(),
            r.coords() == (cx, 0i32, cz),
            r.agrees(chunk_grid(cx as int, cz as int, *cfg, cols@, draws@)),
            forall|x: int, y: int, z: int|
                in_grid(x, y, z) && !is_interior(x, y, z) ==> #[trigger] r.cell(x, y, z)
                    == Voxel::Air,
    {
        let mut chunk = Chunk::new(cx, 0, cz);
        let mut k: usize = 0;
        while k < COLUMN_COUNT
            invariant
                k <= COLUMN_COUNT,
                cfg.valid(),
                cols.len() == COLUMN_COUNT,
                draws.len() == COLUMN_COUNT,
                forall|k: int| 0 <= k < COLUMN_COUNT ==> valid_draws(#[trigger] draws@[k], *cfg),
                chunk.wf(),
                chunk.coords() == (cx, 0i32, cz),
                chunk.agrees(generated(cx as int, cz as int, *cfg, cols@, draws@, k as nat)),
            decreases COLUMN_COUNT - k,
        {
            let ghost before = chunk.grid();
            chunk.generate_column(cx, cz, cfg, k, cols[k], draws[k]);
            let ghost prev = generated(cx as int, cz as int, *cfg, cols@, draws@, k as nat);
            let ghost next = generated(cx as int, cz as int, *cfg, cols@, draws@, (k + 1) as nat);
            assert forall|a: int, b: int, c: int| in_grid(a, b, c) implies #[trigger] chunk.cell(a, b, c)
                == next(a, b, c) by {
                assert(before(a, b, c) == prev(a, b, c));
            }
            k = k + 1;
        }
        assert forall|x: int, y: int, z: int|
            in_grid(x, y, z) && !is_interior(x, y, z) implies #[trigger] chunk.cell(x, y, z)
            == Voxel::Air by {
            chunk.lemma_padding_air(x, y, z);
        }
        chunk
    }
}

/// Trunk and canopy voxels.
pub open spec fn tree_part(v: Voxel) -> bool {
    v == Voxel::Wood || v == Voxel::Leaf || v == Voxel::LeafRed || v == Voxel::LeafGreen
}

/// Island cut at its boundary: whatever the jitter, a column farther than
/// `radius² + roughness` (squared) from the origin is cut and leaves the grid
/// unchanged, and one nearer than `radius² - roughness` is never cut; it is
/// kept exactly when its surface lies above the world floor.
pub proof fn lemma_island_cutoff(
    g: Grid,
    cx: int,
    cz: int,
    cfg: GenConfig,
    k: int,
    col: Column,
    d: ColumnDraws,
)
    requires
        valid_draws(d, cfg),
    ensures
        ({
            let fx = world_coord(cx, column_i(k));
            let fz = world_coord(cz, column_j(k));
            let r = cfg.island_radius as int;
            &&& fx * fx + fz * fz > r * r + cfg.island_radius_roughness ==> column_step(
                g,
                cx,
                cz,
                cfg,
                k,
                col,
                d,
            ) == g
            &&& fx * fx + fz * fz < r * r - cfg.island_radius_roughness ==> (column_kept(
                cx,
                cz,
                cfg,
                k,
                col,
                d,
            ) <==> column_top(col) >= 1)
        }),
{
}

/// What one column step writes: only cells of the generated part of the
/// chunk; its surface voxel at the top of the column with `Dirt` under it
/// down to layer 1; no trunk or canopy when the column is cut, below the
/// floor or on the beach; and trunk voxels only in the column itself, in
/// fewer than `max_tree_height` layers above the surface.
pub proof fn lemma_column_step_writes(
    g: Grid,
    cx: int,
    cz: int,
    cfg: GenConfig,
    k: int,
    col: Column,
    d: ColumnDraws,
)
    requires
        cfg.valid(),
        0 <= k < 256,
        valid_draws(d, cfg),
    ensures
        forall|x: int, y: int, z: int|
            #[trigger] column_step(g, cx, cz, cfg, k, col, d)(x, y, z) != g(x, y, z)
                ==> is_interior(x, y, z),
        column_kept(cx, cz, cfg, k, col, d) ==> column_step(g, cx, cz, cfg, k, col, d)(
            column_i(k),
            column_top(col),
            column_j(k),
        ) == surface_of(col),
        column_kept(cx, cz, cfg, k, col, d) ==> forall|y: int|
            1 <= y < column_top(col) ==> #[trigger] column_step(g, cx, cz, cfg, k, col, d)(
                column_i(k),
                y,
                column_j(k),
            ) == Voxel::Dirt,
        !column_kept(cx, cz, cfg, k, col, d) || col.beach ==> forall|x: int, y: int, z: int|
            #[trigger] column_step(g, cx, cz, cfg, k, col, d)(x, y, z) != g(x, y, z)
                ==> !tree_part(column_step(g, cx, cz, cfg, k, col, d)(x, y, z)),
        forall|x: int, y: int, z: int|
            #[trigger] column_step(g, cx, cz, cfg, k, col, d)(x, y, z) != g(x, y, z)
                && column_step(g, cx, cz, cfg, k, col, d)(x, y, z) == Voxel::Wood ==> x
                == column_i(k) && z == column_j(k) && column_top(col) < y < column_top(col)
                + cfg.max_tree_height,
{
    assert(0 <= k / 16 < 16) by (nonlinear_arith)
        requires
            0 <= k < 256,
    ;
}

/// Generation never writes the padding ring: after any number of columns
/// every padding cell is still `Air`.
pub proof fn lemma_generated_padding_air(
    cx: int,
    cz: int,
    cfg: GenConfig,
    cols: Seq<Column>,
    draws: Seq<ColumnDraws>,
    n: nat,
)
    requires
        cfg.valid(),
        n <= 256,
        forall|k: int| 0 <= k < n ==> valid_draws(#[trigger] draws[k], cfg),
    ensures
        forall|x: int, y: int, z: int|
            in_grid(x, y, z) && !is_interior(x, y, z) ==> #[trigger] generated(
                cx,
                cz,
                cfg,
                cols,
                draws,
                n,
            )(x, y, z) == Voxel::Air,
    decreases n,
{
    if n > 0 {
        let m = (n - 1) as nat;
        lemma_generated_padding_air(cx, cz, cfg, cols, draws, m);
        let prev = generated(cx, cz, cfg, cols, draws, m);
        lemma_column_step_writes(prev, cx, cz, cfg, m as int, cols[m as int], draws[m as int]);
        assert forall|x: int, y: int, z: int|
            in_grid(x, y, z) && !is_interior(x, y, z) implies #[trigger] generated(
            cx,
            cz,
            cfg,
            cols,
            draws,
            n,
        )(x, y, z) == Voxel::Air by {
            assert(prev(x, y, z) == Voxel::Air);
        }
    }
}

/// Generation is deterministic: two chunks generated from the same
/// coordinate, configuration, column shapes and draws hold the same cells.
pub proof fn lemma_generation_deterministic(
    a: &Chunk,
    b: &Chunk,
    cx: int,
    cz: int,
    cfg: GenConfig,
    cols: Seq<Column>,
    draws: Seq<ColumnDraws>,
)
    requires
        a.agrees(chunk_grid(cx, cz, cfg, cols, draws)),
        b.agrees(chunk_grid(cx, cz, cfg, cols, draws)),
    ensures
        a.same_cells(b),
{
}

} // verus!
