use vstd::prelude::*;
use crate::chunk::Chunk;
use crate::terrain::{
    chunk_grid,
    valid_draws,
    Column,
    ColumnDraws,
    GenConfig,
    COLUMN_COUNT,
};

verus! {

/// Relies on macroquad::rand::gen_range (a re-export of quad-rand's
/// `gen_range`): a draw from the process-wide generator, computed as
/// `low + (high - low) * u` in `f64` with `u = rand() / 2^32` in `[0, 1)`
/// and cast back to `i64`. For bounds of this size every step is exact, and
/// the cast, which truncates towards zero, stays in `low..high` when
/// `high > 0`.
#[verifier::external_body]
fn random_range(low: i64, high: i64) -> (r: i64)
    requires
        -1_000_000 <= low < high <= 1_000_000,
        0 < high,
    ensures
        low <= r < high,
{
    macroquad::rand::gen_range(low, high)
}

/// A sequence of draws for every column of a chunk, each in range.
pub open spec fn draws_ok(d: Seq<ColumnDraws>, cfg: GenConfig) -> bool {
    &&& d.len() == COLUMN_COUNT
    &&& forall|k: int| 0 <= k < COLUMN_COUNT ==> valid_draws(#[trigger] d[k], cfg)
}

/// `c` is the chunk at `(cx, cz)` generated from the column shapes `cols`
/// with some in-range draws.
pub open spec fn generated_from(c: Chunk, cx: int, cz: int, cfg: GenConfig, cols: Seq<Column>) -> bool {
    exists|d: Seq<ColumnDraws>|
        draws_ok(d, cfg) && #[trigger] c.agrees(chunk_grid(cx, cz, cfg, cols, d))
}

/// Draws the random choices for one column from the process-wide
/// generator: the jitter of the island cut, the tree roll, the tree height
/// and the canopy colour.
pub fn draw_column(cfg: &GenConfig) -> (d: ColumnDraws)
    requires
        cfg.valid(),
    ensures
        valid_draws(d, *cfg),
{
    let rough = cfg.island_radius_roughness as i64;
    let radius_jitter = if rough == 0 {
        0
    } else {
        random_range(-rough, rough) as i32
    };
    let tree_roll = random_range(0, cfg.tree_chance as i64) as usize;
    let tree_height = random_range(cfg.min_tree_height as i64, cfg.max_tree_height as i64) as usize;
    let leaf = random_range(0, 3) as usize;
    ColumnDraws { radius_jitter, tree_roll, tree_height, leaf }
}

impl Chunk {
    /// Generates the chunk at chunk coordinate `(cx, cz)` from the shape of
    /// each of its columns, with fresh draws from the process-wide
    /// generator.
    pub fn generate(cx: i32, cz: i32, cfg: &GenConfig, cols: &Vec<Column>) -> (r: Chunk)
        requires
            cfg.valid(),
            cols.len() == COLUMN_COUNT,
        ensures
            r.wf(),
            r.coords() == (cx, 0i32, cz),
            generated_from(r, cx as int, cz as int, *cfg, cols@),
    {
        let mut draws: Vec<ColumnDraws> = Vec::with_capacity(COLUMN_COUNT);
        let mut k: usize = 0;
        while k < COLUMN_COUNT
            invariant
                k <= COLUMN_COUNT,
                cfg.valid(),
                draws.len() == k,
                forall|m: int| 0 <= m < k ==> valid_draws(#[trigger] draws@[m], *cfg),
            decreases COLUMN_COUNT - k,
        {
            draws.push(draw_column(cfg));
            k = k + 1;
        }
        let r = Chunk::generate_with(cx, cz, cfg, cols, &draws);
        assert(draws_ok(draws@, *cfg));
        r
    }
}

/// The chunk coordinates of one row of the world: `(cx, cz)` for every `cz`
/// in `start..end`.
pub open spec fn coord_row(start: int, end: int, cx: int) -> Seq<(i32, i32)> {
    Seq::new((end - start) as nat, |b: int| (cx as i32, (start + b) as i32))
}

/// The chunk coordinates of the first `a` rows of the world, `cx` outer and
/// `cz` inner.
pub open spec fn world_coords(start: int, end: int, a: nat) -> Seq<(i32, i32)>
    decreases a,
{
    if a == 0 {
        Seq::empty()
    } else {
        world_coords(start, end, (a - 1) as nat) + coord_row(start, end, start + a - 1)
    }
}

/// The chunk coordinates that `cfg` asks for, in generation order.
pub open spec fn config_coords(cfg: GenConfig) -> Seq<(i32, i32)> {
    world_coords(
        cfg.chunk_start as int,
        cfg.chunk_end as int,
        (cfg.chunk_end - cfg.chunk_start) as nat,
    )
}

/// The chunk coordinates `(cx, cz)` of the world, `cx` outer and `cz`
/// inner, both over `chunk_start..chunk_end`.
pub fn chunk_coords(cfg: &GenConfig) -> (r: Vec<(i32, i32)>)
    requires
        cfg.valid(),
    ensures
        r@ == config_coords(*cfg),
{
    let mut r: Vec<(i32, i32)> = Vec::new();
    let start = cfg.chunk_start;
    let end = cfg.chunk_end;
    let mut cx = start;
    while cx < end
        invariant
            start <= cx <= end,
            start == cfg.chunk_start,
            end == cfg.chunk_end,
            r@ == world_coords(start as int, end as int, (cx - start) as nat),
        decreases end - cx,
    {
        let mut cz = start;
        while cz < end
            invariant
                start <= cx < end,
                start <= cz <= end,
                r@ == world_coords(start as int, end as int, (cx - start) as nat) + coord_row(
                    start as int,
                    end as int,
                    cx as int,
                ).take(cz - start),
            decreases end - cz,
        {
            let ghost prev = r@;
            r.push((cx, cz));
            proof {
                let row = coord_row(start as int, end as int, cx as int);
                let base = world_coords(start as int, end as int, (cx - start) as nat);
                assert(row.take(cz - start + 1) =~= row.take(cz - start).push((cx, cz)));
                assert(r@ =~= base + row.take(cz - start + 1));
            }
            cz = cz + 1;
        }
        proof {
            let row = coord_row(start as int, end as int, cx as int);
            assert(row.take(end - start) =~= row);
            assert(world_coords(start as int, end as int, (cx + 1 - start) as nat)
                == world_coords(start as int, end as int, (cx - start) as nat) + row);
        }
        cx = cx + 1;
    }
    r
}

/// `c` is the chunk at `coord` generated from the column shapes `cols`.
pub open spec fn built_chunk(c: Chunk, coord: (i32, i32), cfg: GenConfig, cols: Seq<Column>) -> bool {
    &&& c.wf()
    &&& c.coords() == (coord.0, 0i32, coord.1)
    &&& generated_from(c, coord.0 as int, coord.1 as int, cfg, cols)
}

/// Builds the world: one chunk for each coordinate of `chunk_coords`, in
/// that order, each generated from the column shapes at the same position
/// of `terrain` with fresh draws.
pub fn build_world(cfg: &GenConfig, terrain: &Vec<Vec<Column>>) -> (r: Vec<Chunk>)
    requires
        cfg.valid(),
        terrain.len() == config_coords(*cfg).len(),
        forall|k: int| 0 <= k < terrain.len() ==> (#[trigger] terrain@[k]).len() == COLUMN_COUNT,
    ensures
        r.len() == terrain.len(),
        forall|k: int|
            0 <= k < r.len() ==> built_chunk(#[trigger] r@[k], config_coords(*cfg)[k], *cfg, terrain@[k]@),
{
    let coords = chunk_coords(cfg);
    let mut r: Vec<Chunk> = Vec::new();
    let mut k: usize = 0;
    while k < coords.len()
        invariant
            cfg.valid(),
            coords@ == config_coords(*cfg),
            terrain.len() == coords.len(),
            forall|k: int| 0 <= k < terrain.len() ==> (#[trigger] terrain@[k]).len() == COLUMN_COUNT,
            k <= coords.len(),
            r.len() == k,
            forall|m: int|
                0 <= m < k ==> built_chunk(#[trigger] r@[m], config_coords(*cfg)[m], *cfg, terrain@[m]@),
        decreases coords.len() - k,
    {
        let (cx, cz) = coords[k];
        let chunk = Chunk::generate(cx, cz, cfg, &terrain[k]);
        r.push(chunk);
        k = k + 1;
    }
    r
}

} // verus!
