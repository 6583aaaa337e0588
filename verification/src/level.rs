//! Level geometry: the immutable, ordered store of solid collision
//! shapes, the broad-phase candidate filter, and the per-tick clamp that
//! takes the minimum allowed movement fraction across all candidates.

use vstd::prelude::*;
use crate::geom::{Rect, Vec2};
use crate::movement::{
    lemma_collision_frac_wf, scale, scale1, spec_collision_frac, spec_complete, spec_non_overlap,
    spec_stuck, try_move, try_move_post, Frac, MoveRes,
};
use crate::{COORD_LIMIT, SUBPIXELS};

verus! {

/// Edge length of one square tile cell, in subpixels.
pub const TILE_SIZE: i64 = 16 * SUBPIXELS;

/// A solid shape of the level. Kept as a closed tagged union so that the
/// sweep resolver handles every shape kind exhaustively; only
/// axis-aligned rectangles exist today.
#[derive(Clone, Copy, Debug, PartialEq, Eq, Structural)]
pub enum CollisionShape {
    Rect(Rect),
}

impl CollisionShape {
    /// The underlying rectangle of the shape.
    pub open spec fn rect(self) -> Rect {
        match self {
            CollisionShape::Rect(r) => r,
        }
    }

    pub open spec fn wf(self) -> bool {
        self.rect().wf()
    }
}

/// The geometry store: an ordered, immutable sequence of solid shapes,
/// built once per map load and then only read.
#[derive(Debug)]
pub struct Level {
    pub collision_shapes: Vec<CollisionShape>,
}

impl Level {
    pub open spec fn wf(self) -> bool {
        forall|i: int|
            0 <= i < self.collision_shapes@.len() ==> (#[trigger] self.collision_shapes@[i]).wf()
    }
}

/// The motion envelope: the union bounding box of the mover before and
/// after the requested displacement.
pub open spec fn spec_envelope(r: Rect, d: Vec2) -> Rect {
    Rect {
        left: if d.x < 0 {
            (r.left + d.x) as i64
        } else {
            r.left
        },
        right: if d.x > 0 {
            (r.right + d.x) as i64
        } else {
            r.right
        },
        bottom: if d.y < 0 {
            (r.bottom + d.y) as i64
        } else {
            r.bottom
        },
        top: if d.y > 0 {
            (r.top + d.y) as i64
        } else {
            r.top
        },
    }
}

/// Compute the motion envelope of a move.
pub fn motion_envelope(r: &Rect, d: &Vec2) -> (env: Rect)
    requires
        r.wf(),
        d.in_bounds(),
    ensures
        env == spec_envelope(*r, *d),
        env.left <= env.right,
        env.bottom <= env.top,
{
    Rect {
        left: if d.x < 0 {
            r.left + d.x
        } else {
            r.left
        },
        right: if d.x > 0 {
            r.right + d.x
        } else {
            r.right
        },
        bottom: if d.y < 0 {
            r.bottom + d.y
        } else {
            r.bottom
        },
        top: if d.y > 0 {
            r.top + d.y
        } else {
            r.top
        },
    }
}

/// The broad-phase test: a shape is a candidate when its rectangle
/// overlaps the envelope on at least one axis. The filter may keep too
/// much (costing resolver calls) but never drops a shape the resolver
/// would flag.
pub open spec fn spec_is_candidate(shape: CollisionShape, env: Rect) -> bool {
    let s = shape.rect();
    ||| !spec_non_overlap(s.left as int, s.right as int, env.left as int, env.right as int)
    ||| !spec_non_overlap(s.bottom as int, s.top as int, env.bottom as int, env.top as int)
}

/// Broad-phase candidate test against a motion envelope.
pub fn is_candidate(shape: &CollisionShape, env: &Rect) -> (r: bool)
    ensures
        r == spec_is_candidate(*shape, *env),
{
    match shape {
        CollisionShape::Rect(s) => {
            !(env.left >= s.right || env.right <= s.left) || !(env.bottom >= s.top || env.top
                <= s.bottom)
        }
    }
}

/// A shape that the candidate filter's non-overlap test excludes is
/// never reached by the motion envelope: resolving it completes with
/// the displacement returned unchanged.
pub proof fn lemma_filtered_out_completes(shape: CollisionShape, mover: Rect, d: Vec2)
    requires
        shape.wf(),
        mover.wf(),
        d.in_bounds(),
        !spec_is_candidate(shape, spec_envelope(mover, d)),
    ensures
        spec_complete(shape.rect(), mover, d),
        !spec_stuck(shape.rect(), mover),
        forall|res: MoveRes|
            #[trigger] try_move_post(shape, mover, d, res) ==> res == MoveRes::Complete(d),
{
    let env = spec_envelope(mover, d);
    let m = mover.spec_translated(d);
    assert(env.left <= mover.left && env.left <= m.left);
    assert(env.right >= mover.right && env.right >= m.right);
    assert(env.bottom <= mover.bottom && env.bottom <= m.bottom);
    assert(env.top >= mover.top && env.top >= m.top);
}

/// The fraction a single obstacle allows of a move: 1 when it completes,
/// the exact collision fraction when it collides, and 0 for the
/// degenerate already-stuck state (no movement on the blocked tick).
pub open spec fn outcome_frac(shape: CollisionShape, mover: Rect, d: Vec2) -> Frac {
    let r1 = shape.rect();
    if spec_stuck(r1, mover) {
        Frac { num: 0, den: 1 }
    } else if spec_complete(r1, mover, d) {
        Frac { num: 1, den: 1 }
    } else {
        spec_collision_frac(r1, mover, d)
    }
}

/// The minimum allowed fraction over the first `n` shapes (1 when none
/// restricts the move); earlier shapes win rational ties.
pub open spec fn min_frac_upto(shapes: Seq<CollisionShape>, mover: Rect, d: Vec2, n: int) -> Frac
    decreases n,
{
    if n <= 0 {
        Frac { num: 1, den: 1 }
    } else {
        let prev = min_frac_upto(shapes, mover, d, n - 1);
        let f = outcome_frac(shapes[n - 1], mover, d);
        if f.spec_lt(prev) {
            f
        } else {
            prev
        }
    }
}

/// The minimum allowed fraction over all shapes of the store.
pub open spec fn spec_min_frac(shapes: Seq<CollisionShape>, mover: Rect, d: Vec2) -> Frac {
    min_frac_upto(shapes, mover, d, shapes.len() as int)
}

/// Some shape already penetrates the mover on both axes.
pub open spec fn spec_any_stuck(shapes: Seq<CollisionShape>, mover: Rect) -> bool {
    exists|i: int| 0 <= i < shapes.len() && spec_stuck((#[trigger] shapes[i]).rect(), mover)
}

/// The result of clamping one tick's displacement against the whole
/// geometry store.
#[derive(Clone, Copy, Debug, PartialEq, Eq, Structural)]
pub struct ClampResult {
    /// The requested displacement scaled by the minimum fraction.
    pub allowed: Vec2,
    /// The minimum allowed fraction across all candidates.
    pub fraction: Frac,
    /// A degenerate already-penetrating candidate was met; the clamp
    /// treated it as allowing no movement, and the caller should surface
    /// a diagnostic rather than halt.
    pub stuck: bool,
}

impl Level {
    /// Clamp a requested displacement against every shape of the store:
    /// the most restrictive candidate wins, never each candidate's clamp
    /// applied cumulatively. The result is the requested displacement
    /// scaled by the minimum allowed fraction across all candidates.
    pub fn clamp_move(&self, mover: &Rect, d: &Vec2) -> (res: ClampResult)
        requires
            self.wf(),
            mover.wf(),
            d.in_bounds(),
        ensures
            res.fraction == spec_min_frac(self.collision_shapes@, *mover, *d),
            res.fraction.wf(),
            res.allowed.x == scale1(d.x as int, res.fraction.num as int, res.fraction.den as int),
            res.allowed.y == scale1(d.y as int, res.fraction.num as int, res.fraction.den as int),
            d.x >= 0 ==> 0 <= res.allowed.x <= d.x,
            d.x <= 0 ==> d.x <= res.allowed.x <= 0,
            d.y >= 0 ==> 0 <= res.allowed.y <= d.y,
            d.y <= 0 ==> d.y <= res.allowed.y <= 0,
            res.fraction.num == res.fraction.den ==> res.allowed == *d,
            res.fraction.num == 0 ==> res.allowed.x == 0 && res.allowed.y == 0,
            res.stuck == spec_any_stuck(self.collision_shapes@, *mover),
    {
        let ghost shapes = self.collision_shapes@;
        let env = motion_envelope(mover, d);
        let n = self.collision_shapes.len();
        let mut acc = Frac::one();
        let mut stuck = false;
        let mut i: usize = 0;
        while i < n
            invariant
                n == shapes.len(),
                shapes == self.collision_shapes@,
                0 <= i <= n,
                self.wf(),
                mover.wf(),
                d.in_bounds(),
                env == spec_envelope(*mover, *d),
                acc == min_frac_upto(shapes, *mover, *d, i as int),
                acc.wf(),
                stuck == exists|j: int|
                    0 <= j < i && spec_stuck((#[trigger] shapes[j]).rect(), *mover),
            decreases n - i,
        {
            let shape = &self.collision_shapes[i];
            if is_candidate(shape, &env) {
                match try_move(shape, mover, d) {
                    MoveRes::Stuck => {
                        stuck = true;
                        let f = Frac::zero();
                        if f.lt(&acc) {
                            acc = f;
                        }
                    },
                    MoveRes::Complete(_c) => {
                        proof {
                            let f = outcome_frac(shapes[i as int], *mover, *d);
                            assert(f == Frac { num: 1i64, den: 1i64 });
                            assert(!f.spec_lt(acc));
                        }
                    },
                    MoveRes::Collision(_c, f, _faces) => {
                        if f.lt(&acc) {
                            acc = f;
                        }
                    },
                }
            } else {
                proof {
                    lemma_filtered_out_completes(shapes[i as int], *mover, *d);
                    let f = outcome_frac(shapes[i as int], *mover, *d);
                    assert(f == Frac { num: 1i64, den: 1i64 });
                    assert(!f.spec_lt(acc));
                }
            }
            i = i + 1;
        }
        let allowed = scale(d, &acc);
        ClampResult { allowed, fraction: acc, stuck }
    }

    /// Whether any solid shape contains the given probe point, edges
    /// included (the downward ground probe of the state machine).
    pub fn probe(&self, p: &Vec2) -> (hit: bool)
        ensures
            hit == spec_probe_hit(self.collision_shapes@, *p),
    {
        let ghost shapes = self.collision_shapes@;
        let n = self.collision_shapes.len();
        let mut i: usize = 0;
        while i < n
            invariant
                n == shapes.len(),
                shapes == self.collision_shapes@,
                0 <= i <= n,
                forall|j: int| 0 <= j < i ==> !(#[trigger] shapes[j]).rect().spec_contains(*p),
            decreases n - i,
        {
            match &self.collision_shapes[i] {
                CollisionShape::Rect(r) => {
                    if r.contains(p) {
                        return true;
                    }
                },
            }
            i = i + 1;
        }
        false
    }
}

/// Any single obstacle's allowed fraction is well-formed.
pub proof fn lemma_outcome_frac_wf(shape: CollisionShape, mover: Rect, d: Vec2)
    requires
        shape.wf(),
        mover.wf(),
        d.in_bounds(),
    ensures
        outcome_frac(shape, mover, d).wf(),
{
    let r1 = shape.rect();
    if !spec_stuck(r1, mover) && !spec_complete(r1, mover, d) {
        lemma_collision_frac_wf(r1, mover, d);
    }
}

/// Transitivity of the cross-multiplied rational order.
proof fn lemma_frac_le_trans(an: int, ad: int, bn: int, bd: int, cn: int, cd: int)
    by (nonlinear_arith)
    requires
        1 <= ad,
        1 <= bd,
        1 <= cd,
        an * bd <= bn * ad,
        bn * cd <= cn * bd,
    ensures
        an * cd <= cn * ad,
{
}

/// Minimum-across-candidates: the fraction the clamp applies over the
/// first `n` shapes is no larger than any single candidate's allowed
/// fraction, and unless no candidate restricts the move it is exactly
/// some candidate's fraction.
pub proof fn lemma_min_frac_is_min(shapes: Seq<CollisionShape>, mover: Rect, d: Vec2, n: int)
    requires
        forall|i: int| 0 <= i < shapes.len() ==> (#[trigger] shapes[i]).wf(),
        mover.wf(),
        d.in_bounds(),
        0 <= n <= shapes.len(),
    ensures
        min_frac_upto(shapes, mover, d, n).wf(),
        forall|i: int|
            0 <= i < n ==> min_frac_upto(shapes, mover, d, n).spec_le(
                #[trigger] outcome_frac(shapes[i], mover, d),
            ),
        min_frac_upto(shapes, mover, d, n) == (Frac { num: 1i64, den: 1i64 }) || exists|i: int|
            0 <= i < n && min_frac_upto(shapes, mover, d, n) == outcome_frac(
                #[trigger] shapes[i],
                mover,
                d,
            ),
    decreases n,
{
    if n > 0 {
        lemma_min_frac_is_min(shapes, mover, d, n - 1);
        let prev = min_frac_upto(shapes, mover, d, n - 1);
        let f = outcome_frac(shapes[n - 1], mover, d);
        lemma_outcome_frac_wf(shapes[n - 1], mover, d);
        let cur = min_frac_upto(shapes, mover, d, n);
        if f.spec_lt(prev) {
            assert(cur == f);
            assert forall|i: int|
                0 <= i < n implies cur.spec_le(
                #[trigger] outcome_frac(shapes[i], mover, d),
            ) by {
                if i < n - 1 {
                    let oi = outcome_frac(shapes[i], mover, d);
                    lemma_outcome_frac_wf(shapes[i], mover, d);
                    lemma_frac_le_trans(
                        f.num as int,
                        f.den as int,
                        prev.num as int,
                        prev.den as int,
                        oi.num as int,
                        oi.den as int,
                    );
                }
            }
            assert(cur == outcome_frac(shapes[n - 1], mover, d));
        } else {
            assert(cur == prev);
            assert(prev.spec_le(f));
        }
    }
}

/// A probe point is a hit when some shape of the store contains it.
pub open spec fn spec_probe_hit(shapes: Seq<CollisionShape>, p: Vec2) -> bool {
    exists|i: int| 0 <= i < shapes.len() && (#[trigger] shapes[i]).rect().spec_contains(p)
}

/// One collision object declared on a tile, in tile-local subpixel
/// coordinates (`y` measured downward from the tile's top edge, as the
/// map editor stores it). Non-rectangular shapes are recognized but
/// contribute no collision geometry — a documented coverage gap.
#[derive(Clone, Copy, Debug, PartialEq, Eq, Structural)]
pub enum ObjectShape {
    Rect { x: i64, y: i64, width: i64, height: i64 },
    Polygon,
    Other,
}

/// The collision objects declared for one tile id of a tileset.
#[derive(Debug)]
pub struct TileDef {
    pub id: u32,
    pub objects: Vec<ObjectShape>,
}

/// One tileset: the global-id offset of its first tile, its declared
/// tile count, and the tiles that declare collision objects.
#[derive(Debug)]
pub struct Tileset {
    pub first_gid: u32,
    pub tilecount: u32,
    pub tiles: Vec<TileDef>,
}

/// One map layer: its visibility and, for finite layers, the row-major
/// grid of global tile ids (row 0 at the top of the map; id 0 is empty).
/// `None` stands for an infinite/chunked layer, which is unsupported.
#[derive(Debug)]
pub struct Layer {
    pub visible: bool,
    pub tiles: Option<Vec<Vec<u32>>>,
}

/// A loaded tile map, reduced to the plain values level building reads.
#[derive(Debug)]
pub struct TileMap {
    pub width: u32,
    pub height: u32,
    pub tilesets: Vec<Tileset>,
    pub layers: Vec<Layer>,
}

/// Why a level build was aborted.
#[derive(Clone, Copy, Debug, PartialEq, Eq, Structural)]
pub enum LevelError {
    /// The map references a number of tilesets other than one.
    UnsupportedTilesets,
    /// A visible layer is infinite/chunked.
    InfiniteLayer,
    /// A tile's global id falls outside the tileset's declared range.
    TileIdOutOfRange(u32),
}

/// A tile-local collision object stays inside its tile cell.
pub open spec fn obj_wf(o: ObjectShape) -> bool {
    match o {
        ObjectShape::Rect { x, y, width, height } => {
            &&& 0 <= x
            &&& 0 <= y
            &&& 0 <= width
            &&& 0 <= height
            &&& x + width <= TILE_SIZE
            &&& y + height <= TILE_SIZE
        },
        _ => true,
    }
}

pub open spec fn tile_def_wf(tile: TileDef) -> bool {
    forall|k: int| 0 <= k < tile.objects@.len() ==> obj_wf(#[trigger] tile.objects@[k])
}

pub open spec fn tileset_wf(ts: Tileset) -> bool {
    forall|j: int| 0 <= j < ts.tiles@.len() ==> tile_def_wf(#[trigger] ts.tiles@[j])
}

pub open spec fn layer_wf(layer: Layer, width: int, height: int) -> bool {
    match layer.tiles {
        Some(grid) => grid@.len() == height && forall|y: int|
            0 <= y < grid@.len() ==> (#[trigger] grid@[y])@.len() == width,
        None => true,
    }
}

/// The data-production contract on a loaded map: dimensions within the
/// machine limit, every finite grid shaped `height x width`, and every
/// declared collision object inside its tile cell.
pub open spec fn map_wf(map: TileMap) -> bool {
    &&& 0 <= map.width <= 1000
    &&& 0 <= map.height <= 1000
    &&& forall|i: int|
        0 <= i < map.layers@.len() ==> layer_wf(
            #[trigger] map.layers@[i],
            map.width as int,
            map.height as int,
        )
    &&& forall|j: int| 0 <= j < map.tilesets@.len() ==> tileset_wf(#[trigger] map.tilesets@[j])
}

/// The world rectangle of a full tile cell at grid column `x` and
/// bottom-up row `y2`.
pub open spec fn spec_tile_rect(x: int, y2: int) -> Rect {
    Rect {
        left: (x * TILE_SIZE) as i64,
        right: (x * TILE_SIZE + TILE_SIZE) as i64,
        bottom: (y2 * TILE_SIZE) as i64,
        top: (y2 * TILE_SIZE + TILE_SIZE) as i64,
    }
}

/// The world rectangle of a tile-local collision object: its top-down
/// local offset is flipped into the bottom-up world frame and anchored
/// at the tile's world position.
pub open spec fn spec_object_rect(x: int, y2: int, ox: int, oy: int, ow: int, oh: int) -> Rect {
    Rect {
        left: (x * TILE_SIZE + ox) as i64,
        right: (x * TILE_SIZE + ox + ow) as i64,
        bottom: (y2 * TILE_SIZE + (TILE_SIZE - (oy + oh))) as i64,
        top: (y2 * TILE_SIZE + (TILE_SIZE - (oy + oh)) + oh) as i64,
    }
}

/// The first tile of the list declaring the given local id.
pub open spec fn spec_find_tile(tiles: Seq<TileDef>, id: int) -> Option<TileDef>
    decreases tiles.len(),
{
    if tiles.len() == 0 {
        None
    } else if tiles[0].id == id {
        Some(tiles[0])
    } else {
        spec_find_tile(tiles.drop_first(), id)
    }
}

/// The last rectangular object of a tile's object list, if any (later
/// declarations override earlier ones).
pub open spec fn spec_last_rect(objects: Seq<ObjectShape>) -> Option<ObjectShape>
    decreases objects.len(),
{
    if objects.len() == 0 {
        None
    } else {
        let last = objects[objects.len() - 1];
        if last is Rect {
            Some(last)
        } else {
            spec_last_rect(objects.drop_last())
        }
    }
}

/// The one collision shape a solid tile cell contributes: the world
/// rectangle of the tile's last declared rectangular object, or the full
/// cell when the tile declares no rectangular sub-shape.
pub open spec fn spec_cell_shape(ts: Tileset, x: int, y2: int, gid: int) -> CollisionShape {
    let idx = gid - ts.first_gid;
    match spec_find_tile(ts.tiles@, idx) {
        Some(tile) => match spec_last_rect(tile.objects@) {
            Some(o) => match o {
                ObjectShape::Rect { x: ox, y: oy, width: ow, height: oh } => CollisionShape::Rect(
                    spec_object_rect(x, y2, ox as int, oy as int, ow as int, oh as int),
                ),
                _ => CollisionShape::Rect(spec_tile_rect(x, y2)),
            },
            None => CollisionShape::Rect(spec_tile_rect(x, y2)),
        },
        None => CollisionShape::Rect(spec_tile_rect(x, y2)),
    }
}

/// Concatenation of two build results: shapes in order, the earlier
/// error winning.
pub open spec fn cat_shapes(
    r1: Result<Seq<CollisionShape>, LevelError>,
    r2: Result<Seq<CollisionShape>, LevelError>,
) -> Result<Seq<CollisionShape>, LevelError> {
    match r1 {
        Ok(a) => match r2 {
            Ok(b) => Ok(a + b),
            Err(e) => Err(e),
        },
        Err(e) => Err(e),
    }
}

/// The shapes of one grid row from column `x` on, at bottom-up row `y2`:
/// empty cells contribute nothing, an out-of-range id aborts, and every
/// other cell contributes its one shape.
pub open spec fn spec_row_shapes(ts: Tileset, row: Seq<u32>, x: int, y2: int) -> Result<
    Seq<CollisionShape>,
    LevelError,
>
    decreases row.len() - x,
{
    if x < 0 || x >= row.len() {
        Ok(Seq::empty())
    } else {
        let gid = row[x];
        if gid == 0 {
            spec_row_shapes(ts, row, x + 1, y2)
        } else if (gid as int) < ts.first_gid || (gid as int) >= ts.tilecount {
            Err(LevelError::TileIdOutOfRange(gid))
        } else {
            cat_shapes(
                Ok(seq![spec_cell_shape(ts, x, y2, gid as int)]),
                spec_row_shapes(ts, row, x + 1, y2),
            )
        }
    }
}

/// The shapes of a layer's grid from top row `y` down, rows translated
/// to the bottom-up world frame.
pub open spec fn spec_rows_shapes(ts: Tileset, grid: Seq<Vec<u32>>, y: int, height: int) -> Result<
    Seq<CollisionShape>,
    LevelError,
>
    decreases height - y,
{
    if y < 0 || y >= height {
        Ok(Seq::empty())
    } else {
        cat_shapes(
            spec_row_shapes(ts, grid[y]@, 0, height - y - 1),
            spec_rows_shapes(ts, grid, y + 1, height),
        )
    }
}

/// The shapes of the layers from index `i` on: invisible layers are
/// skipped, a visible infinite layer aborts the build.
pub open spec fn spec_layers_shapes(ts: Tileset, layers: Seq<Layer>, i: int, height: int) -> Result<
    Seq<CollisionShape>,
    LevelError,
>
    decreases layers.len() - i,
{
    if i < 0 || i >= layers.len() {
        Ok(Seq::empty())
    } else {
        let layer = layers[i];
        if !layer.visible {
            spec_layers_shapes(ts, layers, i + 1, height)
        } else {
            match layer.tiles {
                None => Err(LevelError::InfiniteLayer),
                Some(grid) => cat_shapes(
                    spec_rows_shapes(ts, grid@, 0, height),
                    spec_layers_shapes(ts, layers, i + 1, height),
                ),
            }
        }
    }
}

/// The whole level build: exactly one tileset, then every visible
/// layer's solid cells in order.
pub open spec fn spec_build(map: TileMap) -> Result<Seq<CollisionShape>, LevelError> {
    if map.tilesets@.len() != 1 {
        Err(LevelError::UnsupportedTilesets)
    } else {
        spec_layers_shapes(map.tilesets@[0], map.layers@, 0, map.height as int)
    }
}

proof fn lemma_cat_shapes_assoc(
    r1: Result<Seq<CollisionShape>, LevelError>,
    r2: Result<Seq<CollisionShape>, LevelError>,
    r3: Result<Seq<CollisionShape>, LevelError>,
)
    ensures
        cat_shapes(cat_shapes(r1, r2), r3) == cat_shapes(r1, cat_shapes(r2, r3)),
{
    match r1 {
        Ok(a) => match r2 {
            Ok(b) => match r3 {
                Ok(c) => {
                    assert((a + b) + c =~= a + (b + c));
                },
                Err(_) => {},
            },
            Err(_) => {},
        },
        Err(_) => {},
    }
}

proof fn lemma_cat_shapes_empty_left(r: Result<Seq<CollisionShape>, LevelError>)
    ensures
        cat_shapes(Ok(Seq::empty()), r) == r,
{
    match r {
        Ok(v) => {
            assert(Seq::empty() + v =~= v);
        },
        Err(_) => {},
    }
}

/// Column times tile size stays far inside the coordinate limit.
proof fn lemma_tile_mul(x: int, t: int)
    by (nonlinear_arith)
    requires
        0 <= x <= 1000,
        t == 16_000,
    ensures
        0 <= x * t <= 16_000_000,
{
}

/// Find the first tile declaring the given local id.
fn find_tile(tiles: &Vec<TileDef>, id: u32) -> (r: Option<usize>)
    ensures
        match r {
            Some(j) => j < tiles@.len() && spec_find_tile(tiles@, id as int) == Some(
                tiles@[j as int],
            ),
            None => spec_find_tile(tiles@, id as int) is None,
        },
{
    let n = tiles.len();
    let mut i: usize = 0;
    proof {
        assert(tiles@.skip(0) =~= tiles@);
    }
    while i < n
        invariant
            n == tiles@.len(),
            0 <= i <= n,
            spec_find_tile(tiles@, id as int) == spec_find_tile(tiles@.skip(i as int), id as int),
        decreases n - i,
    {
        if tiles[i].id == id {
            proof {
                assert(tiles@.skip(i as int)[0] == tiles@[i as int]);
            }
            return Some(i);
        }
        proof {
            assert(tiles@.skip(i as int).drop_first() =~= tiles@.skip(i as int + 1));
        }
        i = i + 1;
    }
    proof {
        assert(tiles@.skip(n as int).len() == 0);
    }
    None
}

/// Find the last rectangular object of a tile's object list.
fn last_rect(objects: &Vec<ObjectShape>) -> (r: Option<ObjectShape>)
    ensures
        r == spec_last_rect(objects@),
        r matches Some(o) ==> exists|k: int| 0 <= k < objects@.len() && objects@[k] == o,
{
    let n = objects.len();
    let mut cur: Option<ObjectShape> = None;
    let mut i: usize = 0;
    while i < n
        invariant
            n == objects@.len(),
            0 <= i <= n,
            cur == spec_last_rect(objects@.take(i as int)),
            cur matches Some(o) ==> exists|k: int| 0 <= k < objects@.len() && objects@[k] == o,
        decreases n - i,
    {
        let o = objects[i];
        proof {
            assert(objects@.take(i as int + 1).drop_last() =~= objects@.take(i as int));
            assert(objects@.take(i as int + 1)[i as int] == objects@[i as int]);
        }
        if let ObjectShape::Rect { x, y, width, height } = o {
            cur = Some(o);
        }
        i = i + 1;
    }
    proof {
        assert(objects@.take(n as int) =~= objects@);
    }
    cur
}

/// The one collision shape a solid, in-range tile cell contributes.
fn cell_shape(ts: &Tileset, x: usize, y2: usize, gid: u32) -> (s: CollisionShape)
    requires
        tileset_wf(*ts),
        x <= 1000,
        y2 <= 1000,
        gid >= ts.first_gid,
    ensures
        s == spec_cell_shape(*ts, x as int, y2 as int, gid as int),
        s.wf(),
{
    proof {
        lemma_tile_mul(x as int, TILE_SIZE as int);
        lemma_tile_mul(y2 as int, TILE_SIZE as int);
    }
    let base_x: i64 = (x as i64) * TILE_SIZE;
    let base_y: i64 = (y2 as i64) * TILE_SIZE;
    let idx = gid - ts.first_gid;
    let obj: Option<ObjectShape> = match find_tile(&ts.tiles, idx) {
        Some(j) => last_rect(&ts.tiles[j].objects),
        None => None,
    };
    match obj {
        Some(ObjectShape::Rect { x: ox, y: oy, width: ow, height: oh }) => {
            let bottom = base_y + (TILE_SIZE - (oy + oh));
            let left = base_x + ox;
            CollisionShape::Rect(
                Rect { left, right: left + ow, bottom, top: bottom + oh },
            )
        },
        _ => {
            CollisionShape::Rect(
                Rect {
                    left: base_x,
                    right: base_x + TILE_SIZE,
                    bottom: base_y,
                    top: base_y + TILE_SIZE,
                },
            )
        },
    }
}

impl Level {
    /// Build the geometry store from a loaded map: for every solid tile
    /// of every visible layer, the tile's declared rectangular collision
    /// object translated to world coordinates, or the full tile cell
    /// when none is declared. Aborts, constructing nothing, when the map
    /// does not reference exactly one tileset, a visible layer is
    /// infinite, or a tile id falls outside the tileset's declared
    /// range — exactly as `spec_build` lays down.
    pub fn new(map: &TileMap) -> (r: Result<Level, LevelError>)
        requires
            map_wf(*map),
        ensures
            ({
                let sb = spec_build(*map);
                match r {
                    Ok(level) => sb == Ok::<Seq<CollisionShape>, LevelError>(
                        level.collision_shapes@,
                    ) && level.wf(),
                    Err(e) => sb == Err::<Seq<CollisionShape>, LevelError>(e),
                }
            }),
    {
        if map.tilesets.len() != 1 {
            return Err(LevelError::UnsupportedTilesets);
        }
        let ts = &map.tilesets[0];
        let ghost f_total = spec_build(*map);
        let ghost h = map.height as int;
        let height: usize = map.height as usize;
        let width: usize = map.width as usize;
        let mut shapes: Vec<CollisionShape> = Vec::new();
        let mut li: usize = 0;
        while li < map.layers.len()
            invariant
                map_wf(*map),
                map.tilesets@.len() == 1,
                *ts == map.tilesets@[0],
                h == map.height as int,
                height == map.height as usize,
                width == map.width as usize,
                0 <= li <= map.layers@.len(),
                forall|k: int| 0 <= k < shapes@.len() ==> (#[trigger] shapes@[k]).wf(),
                f_total == spec_build(*map),
                f_total == cat_shapes(
                    Ok(shapes@),
                    spec_layers_shapes(*ts, map.layers@, li as int, h),
                ),
            decreases map.layers@.len() - li,
        {
            let layer = &map.layers[li];
            if layer.visible {
                match &layer.tiles {
                    None => {
                        return Err(LevelError::InfiniteLayer);
                    },
                    Some(grid) => {
                        let ghost l_rest = spec_layers_shapes(*ts, map.layers@, li as int + 1, h);
                        let mut y: usize = 0;
                        while y < height
                            invariant
                                map_wf(*map),
                                map.tilesets@.len() == 1,
                                *ts == map.tilesets@[0],
                                h == map.height as int,
                                height == map.height as usize,
                                width == map.width as usize,
                                0 <= y <= height,
                                li < map.layers@.len(),
                                map.layers@[li as int].tiles == Some(*grid),
                                map.layers@[li as int].visible,
                                l_rest == spec_layers_shapes(*ts, map.layers@, li as int + 1, h),
                                forall|k: int|
                                    0 <= k < shapes@.len() ==> (#[trigger] shapes@[k]).wf(),
                                f_total == spec_build(*map),
                                f_total == cat_shapes(
                                    Ok(shapes@),
                                    cat_shapes(
                                        spec_rows_shapes(*ts, grid@, y as int, h),
                                        l_rest,
                                    ),
                                ),
                            decreases height - y,
                        {
                            let y2: usize = height - 1 - y;
                            let row = &grid[y];
                            proof {
                                assert(layer_wf(map.layers@[li as int], map.width as int, h));
                                assert(row@.len() == width);
                                lemma_cat_shapes_assoc(
                                    spec_row_shapes(*ts, row@, 0, y2 as int),
                                    spec_rows_shapes(*ts, grid@, y as int + 1, h),
                                    l_rest,
                                );
                            }
                            let ghost cell_rest = cat_shapes(
                                spec_rows_shapes(*ts, grid@, y as int + 1, h),
                                l_rest,
                            );
                            let mut x: usize = 0;
                            while x < width
                                invariant
                                    map_wf(*map),
                                    map.tilesets@.len() == 1,
                                    *ts == map.tilesets@[0],
                                    h == map.height as int,
                                    height == map.height as usize,
                                    width == map.width as usize,
                                    0 <= x <= width,
                                    y2 < height,
                                    row@.len() == width,
                                    forall|k: int|
                                        0 <= k < shapes@.len() ==> (#[trigger] shapes@[k]).wf(),
                                    f_total == spec_build(*map),
                                    f_total == cat_shapes(
                                        Ok(shapes@),
                                        cat_shapes(
                                            spec_row_shapes(*ts, row@, x as int, y2 as int),
                                            cell_rest,
                                        ),
                                    ),
                                decreases width - x,
                            {
                                let gid = row[x];
                                if gid != 0 {
                                    if gid < ts.first_gid || gid >= ts.tilecount {
                                        return Err(LevelError::TileIdOutOfRange(gid));
                                    }
                                    let s = cell_shape(ts, x, y2, gid);
                                    proof {
                                        lemma_cat_shapes_assoc(
                                            Ok(seq![spec_cell_shape(*ts, x as int, y2 as int, gid as int)]),
                                            spec_row_shapes(*ts, row@, x as int + 1, y2 as int),
                                            cell_rest,
                                        );
                                    }
                                    let ghost pre = shapes@;
                                    shapes.push(s);
                                    proof {
                                        assert(shapes@ =~= pre + seq![s]);
                                        lemma_cat_shapes_assoc(
                                            Ok(pre),
                                            Ok(seq![s]),
                                            cat_shapes(
                                                spec_row_shapes(*ts, row@, x as int + 1, y2 as int),
                                                cell_rest,
                                            ),
                                        );
                                    }
                                }
                                x = x + 1;
                            }
                            proof {
                                assert(spec_row_shapes(*ts, row@, width as int, y2 as int) == Ok::<
                                    Seq<CollisionShape>,
                                    LevelError,
                                >(Seq::empty()));
                                lemma_cat_shapes_empty_left(cell_rest);
                            }
                            y = y + 1;
                        }
                        proof {
                            assert(spec_rows_shapes(*ts, grid@, height as int, h) == Ok::<
                                Seq<CollisionShape>,
                                LevelError,
                            >(Seq::empty()));
                            lemma_cat_shapes_empty_left(l_rest);
                        }
                    },
                }
            }
            li = li + 1;
        }
        proof {
            assert(spec_layers_shapes(*ts, map.layers@, map.layers@.len() as int, h) == Ok::<
                Seq<CollisionShape>,
                LevelError,
            >(Seq::empty()));
            assert(shapes@ + Seq::<CollisionShape>::empty() =~= shapes@);
        }
        Ok(Level { collision_shapes: shapes })
    }
}

} // verus!
