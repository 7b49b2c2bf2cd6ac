//! The world: terrain that is generated chunk by chunk when a window of
//! tiles is first asked for, and kept from then on.

use vstd::prelude::*;
use vstd::arithmetic::div_mod::{lemma_fundamental_div_mod, lemma_fundamental_div_mod_converse};
use std::collections::HashMap;
use crate::player::{Player, PlayerState};
use crate::tile::{tile_at, GroundType, ResourceType};
use crate::world::pixel_pos::PixelPos;
use crate::world::tile::TILE_SIZE;
use crate::world::tile_pos::{fits_i64, TilePos};
use crate::{CHUNK_X, CHUNK_Y};

pub mod pixel_pos;
pub mod tile;
pub mod tile_pos;

verus! {

/// The ground of a tile and what stands on it.
pub type Tile = (GroundType, ResourceType);

/// The tiles of a chunk: `CHUNK_X` columns of `CHUNK_Y` tiles each, the
/// column counted along x and the place in it along y.
pub type Tiles = Seq<Seq<Tile>>;

/// Whether `tiles` has the shape of a chunk.
pub open spec fn chunk_shaped(tiles: Tiles) -> bool {
    &&& tiles.len() == CHUNK_X
    &&& forall|i: int| 0 <= i < CHUNK_X ==> (#[trigger] tiles[i]).len() == CHUNK_Y
}

/// Whether `tile` is what the two fields make of the place `(x, y)`: the
/// ground field gives a height there, the resource field a density, and
/// the tile is the one that belongs to them.
pub open spec fn tile_from<G: Fn(i64, i64) -> i64, R: Fn(i64, i64) -> i64>(
    ground: G,
    resource: R,
    x: i64,
    y: i64,
    tile: Tile,
) -> bool {
    exists|height: i64, density: i64|
        #![trigger ground.ensures((x, y), height), resource.ensures((x, y), density)]
        ground.ensures((x, y), height) && resource.ensures((x, y), density) && tile == tile_at(
            height as int,
            density as int,
        )
}

/// Whether `tiles` is a chunk that the two fields generate at the chunk
/// coordinate `(cx, cy)`: the tile at the offset `(i, j)` in it is what the
/// fields make of the place `(cx * CHUNK_X + i, cy * CHUNK_Y + j)`.
pub open spec fn generated_by<G: Fn(i64, i64) -> i64, R: Fn(i64, i64) -> i64>(
    ground: G,
    resource: R,
    cx: int,
    cy: int,
    tiles: Tiles,
) -> bool {
    &&& chunk_shaped(tiles)
    &&& forall|i: int, j: int|
        0 <= i < CHUNK_X && 0 <= j < CHUNK_Y ==> tile_from(
            ground,
            resource,
            (cx * CHUNK_X + i) as i64,
            (cy * CHUNK_Y + j) as i64,
            #[trigger] tiles[i][j],
        )
}

/// Whether a field may be asked at every place.
pub open spec fn total<F: Fn(i64, i64) -> i64>(field: F) -> bool {
    forall|x: i64, y: i64| #[trigger] field.requires((x, y))
}

/// Whether a field gives one value only at each place.
pub open spec fn deterministic<F: Fn(i64, i64) -> i64>(field: F) -> bool {
    forall|x: i64, y: i64, a: i64, b: i64|
        #![trigger field.ensures((x, y), a), field.ensures((x, y), b)]
        field.ensures((x, y), a) && field.ensures((x, y), b) ==> a == b
}

/// Whether all the places of the chunk `(cx, cy)` have coordinates that
/// the machine's integers hold.
pub open spec fn chunk_in_reach(cx: int, cy: int) -> bool {
    &&& fits_i64(cx * CHUNK_X)
    &&& fits_i64(cx * CHUNK_X + CHUNK_X - 1)
    &&& fits_i64(cy * CHUNK_Y)
    &&& fits_i64(cy * CHUNK_Y + CHUNK_Y - 1)
}

/// A square of terrain, the unit in which the world is generated and kept.
#[derive(Clone, Debug)]
pub struct Chunk {
    tiles: Vec<Vec<(GroundType, ResourceType)>>,
}

impl View for Chunk {
    type V = Tiles;

    closed spec fn view(&self) -> Tiles {
        Seq::new(self.tiles@.len(), |i: int| self.tiles@[i]@)
    }
}

impl Chunk {
    /// Whether the chunk has all its tiles.
    pub open spec fn wf(&self) -> bool {
        chunk_shaped(self@)
    }

    /// Generates the chunk at the chunk coordinate `(cx, cy)` by asking
    /// the two fields at each of its places.
    pub fn generate<G: Fn(i64, i64) -> i64, R: Fn(i64, i64) -> i64>(
        ground: &G,
        resource: &R,
        cx: i64,
        cy: i64,
    ) -> (chunk: Chunk)
        requires
            total(*ground),
            total(*resource),
            chunk_in_reach(cx as int, cy as int),
        ensures
            chunk.wf(),
            generated_by(*ground, *resource, cx as int, cy as int, chunk@),
    {
        let mut tiles: Vec<Vec<(GroundType, ResourceType)>> = Vec::new();
        let mut i: i64 = 0;
        while i < CHUNK_X
            invariant
                0 <= i <= CHUNK_X,
                total(*ground),
                total(*resource),
                chunk_in_reach(cx as int, cy as int),
                tiles@.len() == i,
                forall|a: int| 0 <= a < i ==> (#[trigger] tiles@[a])@.len() == CHUNK_Y,
                forall|a: int, b: int|
                    0 <= a < i && 0 <= b < CHUNK_Y ==> tile_from(
                        *ground,
                        *resource,
                        (cx * CHUNK_X + a) as i64,
                        (cy * CHUNK_Y + b) as i64,
                        #[trigger] tiles@[a]@[b],
                    ),
            decreases CHUNK_X - i,
        {
            let x: i64 = cx * CHUNK_X + i;
            let mut column: Vec<(GroundType, ResourceType)> = Vec::new();
            let mut j: i64 = 0;
            while j < CHUNK_Y
                invariant
                    0 <= j <= CHUNK_Y,
                    0 <= i < CHUNK_X,
                    x == cx * CHUNK_X + i,
                    total(*ground),
                    total(*resource),
                    chunk_in_reach(cx as int, cy as int),
                    column@.len() == j,
                    forall|b: int|
                        0 <= b < j ==> tile_from(
                            *ground,
                            *resource,
                            x,
                            (cy * CHUNK_Y + b) as i64,
                            #[trigger] column@[b],
                        ),
                decreases CHUNK_Y - j,
            {
                let y: i64 = cy * CHUNK_Y + j;
                let height: i64 = ground(x, y);
                let density: i64 = resource(x, y);
                let tile = (GroundType::classify(height), ResourceType::classify(height, density));
                assert(tile_from(*ground, *resource, x, y, tile));
                column.push(tile);
                j = j + 1;
            }
            tiles.push(column);
            i = i + 1;
        }
        let chunk = Chunk { tiles };
        assert(chunk@.len() == CHUNK_X);
        assert forall|a: int| 0 <= a < CHUNK_X implies (#[trigger] chunk@[a]).len() == CHUNK_Y by {
            assert(chunk@[a] == chunk.tiles@[a]@);
        }
        assert forall|a: int, b: int| 0 <= a < CHUNK_X && 0 <= b < CHUNK_Y implies tile_from(
            *ground,
            *resource,
            (cx * CHUNK_X + a) as i64,
            (cy * CHUNK_Y + b) as i64,
            #[trigger] chunk@[a][b],
        ) by {
            assert(chunk@[a][b] == chunk.tiles@[a]@[b]);
        }
        chunk
    }

    /// The tile at the offset `(i, j)` in the chunk.
    pub fn tile(&self, i: usize, j: usize) -> (r: (GroundType, ResourceType))
        requires
            self.wf(),
            i < CHUNK_X,
            j < CHUNK_Y,
        ensures
            r == self@[i as int][j as int],
    {
        assert(self@[i as int] == self.tiles@[i as int]@);
        self.tiles[i][j]
    }
}

/// The quotient of `a` by a positive `b`, rounded down.
pub fn floor_div(a: i64, b: i64) -> (q: i64)
    requires
        b > 0,
    ensures
        q == a as int / b as int,
{
    if a >= 0 {
        a / b
    } else {
        let up: i64 = -(a + 1);
        let q: i64 = up / b;
        proof {
            lemma_fundamental_div_mod(up as int, b as int);
            let m = up as int % b as int;
            assert(0 <= m < b);
            assert(a as int == (-(q as int) - 1) * b + (b - m - 1)) by (nonlinear_arith)
                requires
                    up as int == b * (q as int) + m,
                    up as int == -(a as int + 1),
            ;
            lemma_fundamental_div_mod_converse(a as int, b as int, -(q as int) - 1, b - m - 1);
        }
        -q - 1
    }
}

/// The chunk coordinate, along one axis, of the chunk that holds the tile
/// coordinate `tile`: chunks are `dim` tiles long, and the coordinate is
/// rounded down.
pub open spec fn chunk_of(tile: int, dim: int) -> int {
    tile / dim
}

/// The first chunk coordinate of the window that begins at the tile
/// coordinate `pos`: one chunk below the chunk that holds `pos`.
pub open spec fn window_low(pos: int, dim: int) -> int {
    chunk_of(pos, dim) - 1
}

/// The chunk coordinate just past the window of `size` tiles that begins
/// at the tile coordinate `pos`.
pub open spec fn window_high(pos: int, size: int, dim: int) -> int {
    chunk_of(pos + size + dim - 1, dim)
}

/// Whether the chunk `(cx, cy)` belongs to the window of `size` tiles at
/// `pos`: the chunks that the window touches, and one more chunk below
/// them on each axis.
pub open spec fn in_window(cx: int, cy: int, pos: TilePos, size: TilePos) -> bool {
    &&& window_low(pos.x as int, CHUNK_X as int) <= cx < window_high(
        pos.x as int,
        size.x as int,
        CHUNK_X as int,
    )
    &&& window_low(pos.y as int, CHUNK_Y as int) <= cy < window_high(
        pos.y as int,
        size.y as int,
        CHUNK_Y as int,
    )
}

/// Whether the window of `size` tiles at `pos`, with the chunk below it on
/// each axis, lies within the coordinates that the machine's integers hold.
pub open spec fn window_in_reach(pos: TilePos, size: TilePos) -> bool {
    &&& fits_i64(pos.x - 2 * CHUNK_X)
    &&& fits_i64(pos.x + size.x)
    &&& fits_i64(pos.x + size.x + CHUNK_X)
    &&& fits_i64(pos.y - 2 * CHUNK_Y)
    &&& fits_i64(pos.y + size.y)
    &&& fits_i64(pos.y + size.y + CHUNK_Y)
}

/// The key under which the chunk `(cx, cy)` is kept: both coordinates,
/// counted from the least `i64`, side by side in one number.
pub open spec fn chunk_key(cx: int, cy: int) -> int {
    (cx + 0x8000_0000_0000_0000) * 0x1_0000_0000_0000_0000 + (cy + 0x8000_0000_0000_0000)
}

/// The key under which the chunk `(cx, cy)` is kept.
pub fn key_of(cx: i64, cy: i64) -> (key: u128)
    ensures
        key == chunk_key(cx as int, cy as int),
{
    let high: u128 = (cx as i128 + 0x8000_0000_0000_0000) as u128;
    let low: u128 = (cy as i128 + 0x8000_0000_0000_0000) as u128;
    high * 0x1_0000_0000_0000_0000 + low
}

/// Two chunks with one key are one chunk.
pub proof fn lemma_chunk_key_injective(ax: int, ay: int, bx: int, by: int)
    requires
        fits_i64(ax),
        fits_i64(ay),
        fits_i64(bx),
        fits_i64(by),
        chunk_key(ax, ay) == chunk_key(bx, by),
    ensures
        ax == bx,
        ay == by,
{
}

/// The chunks that a cache holds, by chunk coordinate.
pub type Cache = Map<(int, int), Tiles>;

/// The cache that a table of chunks by key stands for.
pub open spec fn cache_of(chunks: Map<u128, Chunk>) -> Cache {
    Map::new(
        |c: (int, int)| fits_i64(c.0) && fits_i64(c.1) && chunks.contains_key(chunk_key(c.0, c.1) as u128),
        |c: (int, int)| chunks[chunk_key(c.0, c.1) as u128]@,
    )
}

/// Keeping a chunk under its key puts it into the cache at its coordinate
/// and leaves the rest of the cache alone.
pub proof fn lemma_cache_insert(chunks: Map<u128, Chunk>, cx: i64, cy: i64, chunk: Chunk)
    ensures
        cache_of(chunks.insert(chunk_key(cx as int, cy as int) as u128, chunk)) == cache_of(
            chunks,
        ).insert((cx as int, cy as int), chunk@),
{
    let key = chunk_key(cx as int, cy as int) as u128;
    let after = cache_of(chunks.insert(key, chunk));
    let expected = cache_of(chunks).insert((cx as int, cy as int), chunk@);
    assert forall|c: (int, int)| after.contains_key(c) == expected.contains_key(c) by {
        if fits_i64(c.0) && fits_i64(c.1) && chunk_key(c.0, c.1) == chunk_key(cx as int, cy as int) {
            lemma_chunk_key_injective(c.0, c.1, cx as int, cy as int);
        }
    }
    assert forall|c: (int, int)| after.contains_key(c) implies after[c] == expected[c] by {
        if chunk_key(c.0, c.1) == chunk_key(cx as int, cy as int) {
            lemma_chunk_key_injective(c.0, c.1, cx as int, cy as int);
        }
    }
    assert(after =~= expected);
}

/// One tile to be drawn: what it is made of and the pixel at which it
/// begins.
#[derive(Debug, Clone, Copy, PartialEq, Eq, Structural)]
pub struct TileDraw {
    pub ground: GroundType,
    pub resource: ResourceType,
    pub pos: PixelPos,
}

/// The pixel at which the tile `(tx, ty)` is drawn when the window begins
/// at the tile `pos` and is drawn `offset` pixels into the surface.
pub open spec fn tile_pixel(tx: int, ty: int, pos: TilePos, offset: PixelPos) -> PixelPos {
    PixelPos {
        x: ((tx - pos.x) * TILE_SIZE + offset.x) as i64,
        y: ((ty - pos.y) * TILE_SIZE + offset.y) as i64,
    }
}

/// The tiles of the chunk `(cx, cy)` in the order in which they are
/// drawn: column by column, and each column from its first tile on.
pub open spec fn chunk_draws(tiles: Tiles, cx: int, cy: int, pos: TilePos, offset: PixelPos) -> Seq<
    TileDraw,
> {
    Seq::new(
        (CHUNK_X * CHUNK_Y) as nat,
        |l: int|
            TileDraw {
                ground: tiles[l / CHUNK_Y as int][l % CHUNK_Y as int].0,
                resource: tiles[l / CHUNK_Y as int][l % CHUNK_Y as int].1,
                pos: tile_pixel(
                    cx * CHUNK_X + l / CHUNK_Y as int,
                    cy * CHUNK_Y + l % CHUNK_Y as int,
                    pos,
                    offset,
                ),
            },
    )
}

/// The tiles of the chunks `(cx, y0)` up to, not including, `(cx, y1)`.
pub open spec fn column_draws(
    cache: Cache,
    cx: int,
    y0: int,
    y1: int,
    pos: TilePos,
    offset: PixelPos,
) -> Seq<TileDraw>
    decreases y1 - y0,
{
    if y1 <= y0 {
        Seq::empty()
    } else {
        column_draws(cache, cx, y0, y1 - 1, pos, offset) + chunk_draws(
            cache[(cx, y1 - 1)],
            cx,
            y1 - 1,
            pos,
            offset,
        )
    }
}

/// The tiles of the chunk columns `x0` up to, not including, `x1`.
pub open spec fn columns_draws(
    cache: Cache,
    x0: int,
    x1: int,
    y0: int,
    y1: int,
    pos: TilePos,
    offset: PixelPos,
) -> Seq<TileDraw>
    decreases x1 - x0,
{
    if x1 <= x0 {
        Seq::empty()
    } else {
        columns_draws(cache, x0, x1 - 1, y0, y1, pos, offset) + column_draws(
            cache,
            x1 - 1,
            y0,
            y1,
            pos,
            offset,
        )
    }
}

/// All the tiles drawn for the window of `size` tiles at `pos`: those of
/// every chunk of the window, chunk column by chunk column.
pub open spec fn window_draws(cache: Cache, pos: TilePos, size: TilePos, offset: PixelPos) -> Seq<
    TileDraw,
> {
    columns_draws(
        cache,
        window_low(pos.x as int, CHUNK_X as int),
        window_high(pos.x as int, size.x as int, CHUNK_X as int),
        window_low(pos.y as int, CHUNK_Y as int),
        window_high(pos.y as int, size.y as int, CHUNK_Y as int),
        pos,
        offset,
    )
}

/// Whether every chunk of the window of `size` tiles at `pos` is in the
/// cache.
pub open spec fn window_loaded(cache: Cache, pos: TilePos, size: TilePos) -> bool {
    forall|cx: int, cy: int| in_window(cx, cy, pos, size) ==> #[trigger] cache.contains_key((cx, cy))
}

/// Whether the pixels at which the tiles of the window are drawn lie
/// within what the machine's integers hold.
pub open spec fn draw_in_reach(size: TilePos, offset: PixelPos) -> bool {
    &&& axis_in_reach(size.x as int, offset.x as int, CHUNK_X as int)
    &&& axis_in_reach(size.y as int, offset.y as int, CHUNK_Y as int)
}

/// One axis of `draw_in_reach`: the window reaches from two chunks before
/// its first tile to one chunk past its last.
pub open spec fn axis_in_reach(size: int, offset: int, dim: int) -> bool {
    &&& fits_i64(offset - 2 * dim * TILE_SIZE)
    &&& fits_i64(offset + dim * TILE_SIZE)
    &&& size >= 0 ==> fits_i64((size + dim) * TILE_SIZE) && fits_i64(
        offset + (size + dim) * TILE_SIZE,
    )
}

/// What one call of `load` does to a cache: every chunk of the window is
/// there afterwards, every chunk that was there before is there unchanged,
/// and every chunk that is new lies in the window and was generated by the
/// two fields at its coordinate.
pub open spec fn loaded<G: Fn(i64, i64) -> i64, R: Fn(i64, i64) -> i64>(
    ground: G,
    resource: R,
    before: Cache,
    after: Cache,
    pos: TilePos,
    size: TilePos,
) -> bool {
    &&& forall|cx: int, cy: int| in_window(cx, cy, pos, size) ==> #[trigger] after.contains_key((cx, cy))
    &&& forall|c: (int, int)| #[trigger]
        before.contains_key(c) ==> after.contains_key(c) && after[c] == before[c]
    &&& forall|c: (int, int)| #[trigger]
        after.contains_key(c) && !before.contains_key(c) ==> in_window(c.0, c.1, pos, size)
            && generated_by(ground, resource, c.0, c.1, after[c])
}

/// Whether every chunk of a cache is one that the two fields generate at
/// its coordinate.
pub open spec fn cache_generated<G: Fn(i64, i64) -> i64, R: Fn(i64, i64) -> i64>(
    ground: G,
    resource: R,
    cache: Cache,
) -> bool {
    forall|c: (int, int)| #[trigger]
        cache.contains_key(c) ==> generated_by(ground, resource, c.0, c.1, cache[c])
}

/// The terrain: a ground field and a resource field, and the chunks
/// generated from them so far.
pub struct Terrain<G: Fn(i64, i64) -> i64, R: Fn(i64, i64) -> i64> {
    groundmaker: G,
    resourcemaker: R,
    chunks: HashMap<u128, Chunk>,
}

impl<G: Fn(i64, i64) -> i64, R: Fn(i64, i64) -> i64> Terrain<G, R> {
    /// The field that gives the height of the ground at each place.
    pub closed spec fn ground(&self) -> G {
        self.groundmaker
    }

    /// The field that gives the density of resources at each place.
    pub closed spec fn resource(&self) -> R {
        self.resourcemaker
    }

    /// The chunks generated so far, by chunk coordinate.
    pub closed spec fn cache(&self) -> Cache {
        cache_of(self.chunks@)
    }

    /// Whether the terrain is sound: both fields may be asked anywhere, and
    /// every chunk in the cache is one that they generate at its coordinate.
    pub closed spec fn wf(&self) -> bool {
        &&& total(self.groundmaker)
        &&& total(self.resourcemaker)
        &&& cache_generated(self.groundmaker, self.resourcemaker, cache_of(self.chunks@))
    }

    /// In a sound terrain both fields may be asked anywhere, and every
    /// chunk of the cache is one that they generate at its coordinate.
    pub proof fn lemma_cache_generated(&self)
        requires
            self.wf(),
        ensures
            total(self.ground()),
            total(self.resource()),
            cache_generated(self.ground(), self.resource(), self.cache()),
    {
    }

    /// A terrain over the two fields, with nothing generated yet.
    pub fn new(ground: G, resource: R) -> (terrain: Self)
        requires
            total(ground),
            total(resource),
        ensures
            terrain.wf(),
            terrain.ground() == ground,
            terrain.resource() == resource,
            terrain.cache() == Cache::empty(),
    {
        let terrain = Terrain {
            groundmaker: ground,
            resourcemaker: resource,
            chunks: HashMap::new(),
        };
        assert(cache_of(terrain.chunks@) =~= Cache::empty());
        terrain
    }

    /// Whether the chunk `(cx, cy)` is in the cache.
    pub fn has_chunk(&self, cx: i64, cy: i64) -> (r: bool)
        ensures
            r == self.cache().contains_key((cx as int, cy as int)),
    {
        let key = key_of(cx, cy);
        self.chunks.contains_key(&key)
    }

    /// The chunk `(cx, cy)`, where it is in the cache.
    pub fn chunk(&self, cx: i64, cy: i64) -> (r: Option<&Chunk>)
        ensures
            r is Some == self.cache().contains_key((cx as int, cy as int)),
            r matches Some(chunk) ==> chunk@ == self.cache()[(cx as int, cy as int)],
            self.wf() ==> (r matches Some(chunk) ==> chunk.wf()),
    {
        let key = key_of(cx, cy);
        self.chunks.get(&key)
    }

    /// Whether every chunk of the window of `size` tiles at `pos` is in
    /// the cache, so that the window can be drawn.
    pub fn is_loaded(&self, pos: TilePos, size: TilePos) -> (r: bool)
        requires
            window_in_reach(pos, size),
        ensures
            r == window_loaded(self.cache(), pos, size),
    {
        let x0: i64 = floor_div(pos.x, CHUNK_X) - 1;
        let x1: i64 = floor_div(pos.x + size.x + CHUNK_X - 1, CHUNK_X);
        let y0: i64 = floor_div(pos.y, CHUNK_Y) - 1;
        let y1: i64 = floor_div(pos.y + size.y + CHUNK_Y - 1, CHUNK_Y);
        let mut cx: i64 = x0;
        while cx < x1
            invariant
                x0 == window_low(pos.x as int, CHUNK_X as int),
                x1 == window_high(pos.x as int, size.x as int, CHUNK_X as int),
                y0 == window_low(pos.y as int, CHUNK_Y as int),
                y1 == window_high(pos.y as int, size.y as int, CHUNK_Y as int),
                x0 <= cx,
                cx <= x1 || cx == x0,
                forall|a: int, b: int|
                    x0 <= a < cx && y0 <= b < y1 ==> #[trigger] cache_of(self.chunks@).contains_key(
                        (a, b),
                    ),
            decreases x1 - cx,
        {
            let mut cy: i64 = y0;
            while cy < y1
                invariant
                    x0 == window_low(pos.x as int, CHUNK_X as int),
                    x1 == window_high(pos.x as int, size.x as int, CHUNK_X as int),
                    y0 == window_low(pos.y as int, CHUNK_Y as int),
                    y1 == window_high(pos.y as int, size.y as int, CHUNK_Y as int),
                    x0 <= cx < x1,
                    y0 <= cy,
                    cy <= y1 || cy == y0,
                    forall|a: int, b: int|
                        x0 <= a < cx && y0 <= b < y1 ==> #[trigger] cache_of(
                            self.chunks@,
                        ).contains_key((a, b)),
                    forall|b: int|
                        y0 <= b < cy ==> #[trigger] cache_of(self.chunks@).contains_key(
                            (cx as int, b),
                        ),
                decreases y1 - cy,
            {
                if !self.has_chunk(cx, cy) {
                    assert(in_window(cx as int, cy as int, pos, size));
                    return false;
                }
                cy = cy + 1;
            }
            cx = cx + 1;
        }
        true
    }

    /// Lists the tiles to draw for the window of `size` tiles at `pos`,
    /// each with the pixel at which it begins, in drawing order. The cache
    /// is only read.
    pub fn draw(&self, pos: TilePos, size: TilePos, offset: PixelPos) -> (out: Vec<TileDraw>)
        requires
            self.wf(),
            window_in_reach(pos, size),
            draw_in_reach(size, offset),
            window_loaded(self.cache(), pos, size),
        ensures
            out@ == window_draws(self.cache(), pos, size, offset),
    {
        let x0: i64 = floor_div(pos.x, CHUNK_X) - 1;
        let x1: i64 = floor_div(pos.x + size.x + CHUNK_X - 1, CHUNK_X);
        let y0: i64 = floor_div(pos.y, CHUNK_Y) - 1;
        let y1: i64 = floor_div(pos.y + size.y + CHUNK_Y - 1, CHUNK_Y);
        let ghost cache = cache_of(self.chunks@);
        let mut out: Vec<TileDraw> = Vec::new();
        let mut cx: i64 = x0;
        while cx < x1
            invariant
                x0 == window_low(pos.x as int, CHUNK_X as int),
                x1 == window_high(pos.x as int, size.x as int, CHUNK_X as int),
                y0 == window_low(pos.y as int, CHUNK_Y as int),
                y1 == window_high(pos.y as int, size.y as int, CHUNK_Y as int),
                window_in_reach(pos, size),
                draw_in_reach(size, offset),
                self.wf(),
                cache == cache_of(self.chunks@),
                window_loaded(cache, pos, size),
                x0 <= cx,
                cx <= x1 || cx == x0,
                out@ == columns_draws(cache, x0 as int, cx as int, y0 as int, y1 as int, pos, offset),
            decreases x1 - cx,
        {
            let ghost done = out@;
            let mut cy: i64 = y0;
            while cy < y1
                invariant
                    x0 == window_low(pos.x as int, CHUNK_X as int),
                    x1 == window_high(pos.x as int, size.x as int, CHUNK_X as int),
                    y0 == window_low(pos.y as int, CHUNK_Y as int),
                    y1 == window_high(pos.y as int, size.y as int, CHUNK_Y as int),
                    window_in_reach(pos, size),
                    draw_in_reach(size, offset),
                    self.wf(),
                    cache == cache_of(self.chunks@),
                    window_loaded(cache, pos, size),
                    x0 <= cx < x1,
                    y0 <= cy,
                    cy <= y1 || cy == y0,
                    out@ == done + column_draws(cache, cx as int, y0 as int, cy as int, pos, offset),
                decreases y1 - cy,
            {
                assert(in_window(cx as int, cy as int, pos, size));
                assert(cache.contains_key((cx as int, cy as int)));
                match self.chunk(cx, cy) {
                    Some(chunk) => {
                        draw_chunk(chunk, cx, cy, pos, size, offset, &mut out);
                        assert(out@ == done + (column_draws(
                            cache,
                            cx as int,
                            y0 as int,
                            cy as int,
                            pos,
                            offset,
                        ) + chunk_draws(chunk@, cx as int, cy as int, pos, offset)));
                    },
                    None => {},
                }
                cy = cy + 1;
            }
            assert(column_draws(cache, cx as int, y0 as int, cy as int, pos, offset)
                == column_draws(cache, cx as int, y0 as int, y1 as int, pos, offset));
            cx = cx + 1;
            assert(out@ == columns_draws(
                cache,
                x0 as int,
                cx as int,
                y0 as int,
                y1 as int,
                pos,
                offset,
            ));
        }
        assert(columns_draws(cache, x0 as int, cx as int, y0 as int, y1 as int, pos, offset)
            == columns_draws(cache, x0 as int, x1 as int, y0 as int, y1 as int, pos, offset));
        out
    }

    /// Makes sure that every chunk of the window of `size` tiles at `pos`
    /// is in the cache, generating those that are missing. A chunk that is
    /// in the cache already is left as it is.
    pub fn load(&mut self, pos: TilePos, size: TilePos)
        requires
            old(self).wf(),
            window_in_reach(pos, size),
        ensures
            final(self).wf(),
            final(self).ground() == old(self).ground(),
            final(self).resource() == old(self).resource(),
            loaded(
                old(self).ground(),
                old(self).resource(),
                old(self).cache(),
                final(self).cache(),
                pos,
                size,
            ),
    {
        let x0: i64 = floor_div(pos.x, CHUNK_X) - 1;
        let x1: i64 = floor_div(pos.x + size.x + CHUNK_X - 1, CHUNK_X);
        let y0: i64 = floor_div(pos.y, CHUNK_Y) - 1;
        let y1: i64 = floor_div(pos.y + size.y + CHUNK_Y - 1, CHUNK_Y);
        let ghost before = cache_of(self.chunks@);
        let mut cx: i64 = x0;
        while cx < x1
            invariant
                x0 == window_low(pos.x as int, CHUNK_X as int),
                x1 == window_high(pos.x as int, size.x as int, CHUNK_X as int),
                y0 == window_low(pos.y as int, CHUNK_Y as int),
                y1 == window_high(pos.y as int, size.y as int, CHUNK_Y as int),
                window_in_reach(pos, size),
                x0 <= cx,
                cx <= x1 || cx == x0,
                self.wf(),
                self.groundmaker == old(self).groundmaker,
                self.resourcemaker == old(self).resourcemaker,
                before == cache_of(old(self).chunks@),
                forall|a: int, b: int|
                    x0 <= a < cx && y0 <= b < y1 ==> #[trigger] cache_of(self.chunks@).contains_key(
                        (a, b),
                    ),
                forall|c: (int, int)| #[trigger]
                    before.contains_key(c) ==> cache_of(self.chunks@).contains_key(c) && cache_of(
                        self.chunks@,
                    )[c] == before[c],
                forall|c: (int, int)| #[trigger]
                    cache_of(self.chunks@).contains_key(c) && !before.contains_key(c) ==> in_window(
                        c.0,
                        c.1,
                        pos,
                        size,
                    ),
            decreases x1 - cx,
        {
            let mut cy: i64 = y0;
            while cy < y1
                invariant
                    x0 == window_low(pos.x as int, CHUNK_X as int),
                    x1 == window_high(pos.x as int, size.x as int, CHUNK_X as int),
                    y0 == window_low(pos.y as int, CHUNK_Y as int),
                    y1 == window_high(pos.y as int, size.y as int, CHUNK_Y as int),
                    window_in_reach(pos, size),
                    x0 <= cx < x1,
                    y0 <= cy,
                    cy <= y1 || cy == y0,
                    self.wf(),
                    self.groundmaker == old(self).groundmaker,
                    self.resourcemaker == old(self).resourcemaker,
                        before == cache_of(old(self).chunks@),
                    forall|a: int, b: int|
                        x0 <= a < cx && y0 <= b < y1 ==> #[trigger] cache_of(
                            self.chunks@,
                        ).contains_key((a, b)),
                    forall|b: int|
                        y0 <= b < cy ==> #[trigger] cache_of(self.chunks@).contains_key(
                            (cx as int, b),
                        ),
                    forall|c: (int, int)| #[trigger]
                        before.contains_key(c) ==> cache_of(self.chunks@).contains_key(c)
                            && cache_of(self.chunks@)[c] == before[c],
                    forall|c: (int, int)| #[trigger]
                        cache_of(self.chunks@).contains_key(c) && !before.contains_key(c)
                            ==> in_window(c.0, c.1, pos, size),
                decreases y1 - cy,
            {
                let key = key_of(cx, cy);
                if !self.chunks.contains_key(&key) {
                    assert(chunk_in_reach(cx as int, cy as int));
                    let chunk = Chunk::generate(&self.groundmaker, &self.resourcemaker, cx, cy);
                    proof {
                        lemma_cache_insert(self.chunks@, cx, cy, chunk);
                    }
                    self.chunks.insert(key, chunk);
                }
                cy = cy + 1;
            }
            cx = cx + 1;
        }
    }
}

/// The world: the terrain and the player on it.
pub struct World<G: Fn(i64, i64) -> i64, R: Fn(i64, i64) -> i64> {
    pub terrain: Terrain<G, R>,
    pub player: Player,
}

impl<G: Fn(i64, i64) -> i64, R: Fn(i64, i64) -> i64> World<G, R> {
    /// Whether the world is sound: its terrain is.
    pub open spec fn wf(&self) -> bool {
        self.terrain.wf()
    }

    /// The chunks generated so far, by chunk coordinate.
    pub open spec fn cache(&self) -> Cache {
        self.terrain.cache()
    }

    /// A world over the two fields, with nothing generated yet and the
    /// player at the origin, facing up, at rest.
    pub fn new(ground: G, resource: R) -> (world: Self)
        requires
            total(ground),
            total(resource),
        ensures
            world.wf(),
            world.terrain.ground() == ground,
            world.terrain.resource() == resource,
            world.cache() == Cache::empty(),
            world.player@ == PlayerState::initial(),
    {
        World { terrain: Terrain::new(ground, resource), player: Player::new() }
    }

    /// Makes sure that every chunk of the window of `size` tiles at `pos`
    /// is in the cache, generating those that are missing. A chunk that is
    /// in the cache already is left as it is, and so is the player.
    pub fn load(&mut self, pos: TilePos, size: TilePos)
        requires
            old(self).wf(),
            window_in_reach(pos, size),
        ensures
            final(self).wf(),
            final(self).terrain.ground() == old(self).terrain.ground(),
            final(self).terrain.resource() == old(self).terrain.resource(),
            final(self).player == old(self).player,
            loaded(
                old(self).terrain.ground(),
                old(self).terrain.resource(),
                old(self).cache(),
                final(self).cache(),
                pos,
                size,
            ),
    {
        self.terrain.load(pos, size);
    }

    /// Whether every chunk of the window of `size` tiles at `pos` is in
    /// the cache, so that the window can be drawn.
    pub fn is_loaded(&self, pos: TilePos, size: TilePos) -> (r: bool)
        requires
            window_in_reach(pos, size),
        ensures
            r == window_loaded(self.cache(), pos, size),
    {
        self.terrain.is_loaded(pos, size)
    }

    /// Lists the tiles to draw for the window of `size` tiles at `pos`,
    /// each with the pixel at which it begins, in drawing order. The
    /// window must have been loaded. Nothing in the world changes.
    pub fn draw(&self, pos: TilePos, size: TilePos, offset: PixelPos) -> (out: Vec<TileDraw>)
        requires
            self.wf(),
            window_in_reach(pos, size),
            draw_in_reach(size, offset),
            window_loaded(self.cache(), pos, size),
        ensures
            out@ == window_draws(self.cache(), pos, size, offset),
    {
        self.terrain.draw(pos, size, offset)
    }
}

/// Every tile of a window lies in a chunk of the window: once the window
/// is loaded, the chunk of each of its tiles is in the cache.
pub proof fn lemma_window_covers_tiles(pos: TilePos, size: TilePos, tx: int, ty: int)
    requires
        pos.x <= tx < pos.x + size.x,
        pos.y <= ty < pos.y + size.y,
    ensures
        in_window(chunk_of(tx, CHUNK_X as int), chunk_of(ty, CHUNK_Y as int), pos, size),
{
}

/// A load never changes a chunk that was in the cache before it, whatever
/// its window.
pub proof fn lemma_load_keeps_chunks<G: Fn(i64, i64) -> i64, R: Fn(i64, i64) -> i64>(
    ground: G,
    resource: R,
    before: Cache,
    after: Cache,
    pos: TilePos,
    size: TilePos,
    cx: int,
    cy: int,
)
    requires
        loaded(ground, resource, before, after, pos, size),
        before.contains_key((cx, cy)),
    ensures
        after.contains_key((cx, cy)),
        after[(cx, cy)] == before[(cx, cy)],
{
}

/// A second load whose window lies within the window of the first changes
/// nothing at all: the cache after it is the cache before it.
pub proof fn lemma_load_idempotent<G: Fn(i64, i64) -> i64, R: Fn(i64, i64) -> i64>(
    ground: G,
    resource: R,
    start: Cache,
    first: Cache,
    second: Cache,
    pos: TilePos,
    size: TilePos,
    within_pos: TilePos,
    within_size: TilePos,
)
    requires
        loaded(ground, resource, start, first, pos, size),
        loaded(ground, resource, first, second, within_pos, within_size),
        forall|cx: int, cy: int| #[trigger]
            in_window(cx, cy, within_pos, within_size) ==> in_window(cx, cy, pos, size),
    ensures
        second == first,
{
    assert forall|c: (int, int)| second.contains_key(c) implies first.contains_key(c) by {
        if !first.contains_key(c) {
            assert(in_window(c.0, c.1, within_pos, within_size));
            assert(in_window(c.0, c.1, pos, size));
            assert(first.contains_key((c.0, c.1)));
        }
    }
    assert(second =~= first);
}

/// A window of the same place and a size that is no larger on either axis
/// lies within the window it was shrunk from.
pub proof fn lemma_shrunk_window_within(pos: TilePos, size: TilePos, smaller: TilePos, cx: int, cy: int)
    requires
        smaller.x <= size.x,
        smaller.y <= size.y,
        in_window(cx, cy, pos, smaller),
    ensures
        in_window(cx, cy, pos, size),
{
}

/// The tile at the offset `(i, j)` of the chunk `(cx, cy)`, as it is drawn.
pub open spec fn tile_draw(tiles: Tiles, cx: int, cy: int, i: int, j: int, pos: TilePos, offset: PixelPos) -> TileDraw {
    TileDraw {
        ground: tiles[i][j].0,
        resource: tiles[i][j].1,
        pos: tile_pixel(cx * CHUNK_X + i, cy * CHUNK_Y + j, pos, offset),
    }
}

/// Every tile of every chunk of the window is among the tiles drawn for
/// the window, with its own ground and resource, at its own pixel.
pub proof fn lemma_draws_contain_tile(
    cache: Cache,
    pos: TilePos,
    size: TilePos,
    offset: PixelPos,
    cx: int,
    cy: int,
    i: int,
    j: int,
)
    requires
        in_window(cx, cy, pos, size),
        0 <= i < CHUNK_X,
        0 <= j < CHUNK_Y,
    ensures
        window_draws(cache, pos, size, offset).contains(
            tile_draw(cache[(cx, cy)], cx, cy, i, j, pos, offset),
        ),
{
    let x0 = window_low(pos.x as int, CHUNK_X as int);
    let x1 = window_high(pos.x as int, size.x as int, CHUNK_X as int);
    let y0 = window_low(pos.y as int, CHUNK_Y as int);
    let y1 = window_high(pos.y as int, size.y as int, CHUNK_Y as int);
    let wanted = tile_draw(cache[(cx, cy)], cx, cy, i, j, pos, offset);
    let l = i * CHUNK_Y + j;
    assert(chunk_draws(cache[(cx, cy)], cx, cy, pos, offset)[l] == wanted);
    lemma_column_contains(cache, cx, y0, y1, cy, l, pos, offset);
    lemma_columns_contain(cache, x0, x1, y0, y1, cx, wanted, pos, offset);
}

/// A tile of a chunk of a chunk column is among the tiles of the column.
proof fn lemma_column_contains(
    cache: Cache,
    cx: int,
    y0: int,
    y1: int,
    cy: int,
    l: int,
    pos: TilePos,
    offset: PixelPos,
)
    requires
        y0 <= cy < y1,
        0 <= l < CHUNK_X * CHUNK_Y,
    ensures
        column_draws(cache, cx, y0, y1, pos, offset).contains(
            chunk_draws(cache[(cx, cy)], cx, cy, pos, offset)[l],
        ),
    decreases y1 - y0,
{
    let earlier = column_draws(cache, cx, y0, y1 - 1, pos, offset);
    let last = chunk_draws(cache[(cx, y1 - 1)], cx, y1 - 1, pos, offset);
    let wanted = chunk_draws(cache[(cx, cy)], cx, cy, pos, offset)[l];
    if cy == y1 - 1 {
        assert((earlier + last)[earlier.len() + l] == wanted);
    } else {
        lemma_column_contains(cache, cx, y0, y1 - 1, cy, l, pos, offset);
        let at = choose|at: int| 0 <= at < earlier.len() && earlier[at] == wanted;
        assert((earlier + last)[at] == wanted);
    }
}

/// A tile of a chunk column is among the tiles of the columns.
proof fn lemma_columns_contain(
    cache: Cache,
    x0: int,
    x1: int,
    y0: int,
    y1: int,
    cx: int,
    wanted: TileDraw,
    pos: TilePos,
    offset: PixelPos,
)
    requires
        x0 <= cx < x1,
        column_draws(cache, cx, y0, y1, pos, offset).contains(wanted),
    ensures
        columns_draws(cache, x0, x1, y0, y1, pos, offset).contains(wanted),
    decreases x1 - x0,
{
    let earlier = columns_draws(cache, x0, x1 - 1, y0, y1, pos, offset);
    let last = column_draws(cache, x1 - 1, y0, y1, pos, offset);
    if cx == x1 - 1 {
        let at = choose|at: int| 0 <= at < last.len() && last[at] == wanted;
        assert((earlier + last)[earlier.len() + at] == wanted);
    } else {
        lemma_columns_contain(cache, x0, x1 - 1, y0, y1, cx, wanted, pos, offset);
        let at = choose|at: int| 0 <= at < earlier.len() && earlier[at] == wanted;
        assert((earlier + last)[at] == wanted);
    }
}

/// Appends the tiles of the chunk `(cx, cy)` to `out`, in drawing order.
fn draw_chunk(
    chunk: &Chunk,
    cx: i64,
    cy: i64,
    pos: TilePos,
    size: TilePos,
    offset: PixelPos,
    out: &mut Vec<TileDraw>,
)
    requires
        chunk.wf(),
        window_in_reach(pos, size),
        draw_in_reach(size, offset),
        in_window(cx as int, cy as int, pos, size),
    ensures
        final(out)@ == old(out)@ + chunk_draws(chunk@, cx as int, cy as int, pos, offset),
{
    let ghost wanted = chunk_draws(chunk@, cx as int, cy as int, pos, offset);
    let mut l: usize = 0;
    while l < 16
        invariant
            0 <= l <= 16,
            chunk.wf(),
            window_in_reach(pos, size),
            draw_in_reach(size, offset),
            in_window(cx as int, cy as int, pos, size),
            wanted == chunk_draws(chunk@, cx as int, cy as int, pos, offset),
            out@ == old(out)@ + wanted.take(l as int),
        decreases 16 - l,
    {
        let i: usize = l / 4;
        let j: usize = l % 4;
        let tile = chunk.tile(i, j);
        let tx: i64 = cx * CHUNK_X + i as i64;
        let ty: i64 = cy * CHUNK_Y + j as i64;
        let rel_x: i64 = tx - pos.x;
        let rel_y: i64 = ty - pos.y;
        let draw = TileDraw {
            ground: tile.0,
            resource: tile.1,
            pos: PixelPos { x: rel_x * TILE_SIZE + offset.x, y: rel_y * TILE_SIZE + offset.y },
        };
        assert(draw == wanted[l as int]);
        out.push(draw);
        assert(wanted.take(l + 1) == wanted.take(l as int).push(wanted[l as int]));
        l = l + 1;
    }
    assert(wanted.take(16) == wanted);
}

/// A chunk that two fields generate at a coordinate is decided by the
/// fields and the coordinate alone, where each field gives one value only
/// at each place: generating it twice gives the same tiles.
pub proof fn lemma_chunk_determinism<G: Fn(i64, i64) -> i64, R: Fn(i64, i64) -> i64>(
    ground: G,
    resource: R,
    cx: int,
    cy: int,
    first: Tiles,
    second: Tiles,
)
    requires
        deterministic(ground),
        deterministic(resource),
        generated_by(ground, resource, cx, cy, first),
        generated_by(ground, resource, cx, cy, second),
    ensures
        first == second,
{
    assert forall|i: int| 0 <= i < CHUNK_X implies first[i] == second[i] by {
        assert forall|j: int| 0 <= j < CHUNK_Y implies first[i][j] == second[i][j] by {
            let x = (cx * CHUNK_X + i) as i64;
            let y = (cy * CHUNK_Y + j) as i64;
            assert(tile_from(ground, resource, x, y, first[i][j]));
            assert(tile_from(ground, resource, x, y, second[i][j]));
        }
        assert(first[i].len() == second[i].len());
        assert(first[i] =~= second[i]);
    }
    assert(first =~= second);
}

} // verus!
