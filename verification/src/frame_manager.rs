//! The frame: what the window shows of the world, and what the pointer
//! and the keys ask of the player.

use vstd::prelude::*;
use crate::atlas::{Atlas, Section};
use crate::control_manager::{fresh_move, key_step, ControlManager, KeyCode, MouseButton};
use crate::frame_manager::draw::Draw;
use crate::player::Player;
use crate::world::pixel_pos::{
    mouse_to_pixel,
    pixel_to_rel_tile,
    tile_to_pixel,
    viewport_offset,
    visible_tiles,
    PixelPos,
    WindowSize,
};
use crate::world::tile::TILE_SIZE;
use crate::world::tile_pos::{fits_i64, trunc_div, TilePos};
use crate::world::{draw_in_reach, loaded, window_draws, window_in_reach, Cache, TileDraw, World};
use crate::Error;

pub mod draw;

verus! {

/// One sprite to be drawn: its section of its sheet, and the pixel at
/// which it is drawn.
#[derive(Debug, Clone, Copy, PartialEq, Eq, Structural)]
pub struct SpriteDraw {
    pub section: Section,
    pub pos: PixelPos,
}

/// The sprites of one tile: its ground, and on it its resource where the
/// resource has a sprite. A ground without a sprite is an error.
pub open spec fn tile_sprites(atlas: &Atlas, frame: u64, tile: TileDraw) -> Result<
    Seq<SpriteDraw>,
    Error,
> {
    match tile.ground.drawn(atlas, frame) {
        Err(error) => Err(error),
        Ok(ground) => match tile.resource.drawn(atlas, frame) {
            Ok(resource) => Ok(
                seq![
                    SpriteDraw { section: ground, pos: tile.pos },
                    SpriteDraw { section: resource, pos: tile.pos },
                ],
            ),
            Err(_) => Ok(seq![SpriteDraw { section: ground, pos: tile.pos }]),
        },
    }
}

/// The sprites of the tiles `tiles`, in their order; the first tile whose
/// ground has no sprite makes the whole an error.
pub open spec fn tiles_sprites(atlas: &Atlas, frame: u64, tiles: Seq<TileDraw>) -> Result<
    Seq<SpriteDraw>,
    Error,
>
    decreases tiles.len(),
{
    if tiles.len() == 0 {
        Ok(Seq::empty())
    } else {
        match tiles_sprites(atlas, frame, tiles.drop_last()) {
            Err(error) => Err(error),
            Ok(sprites) => match tile_sprites(atlas, frame, tiles.last()) {
                Err(error) => Err(error),
                Ok(more) => Ok(sprites + more),
            },
        }
    }
}

/// The tile, counted from the first tile of the board, on which the
/// player is drawn: the tile in the middle of the board.
pub open spec fn board_centre(board_size: TilePos) -> (int, int) {
    (trunc_div(board_size.x as int, 2), trunc_div(board_size.y as int, 2))
}

/// Whether a player at `pos` is far enough from the ends of the
/// coordinates for a window of any size to be laid out around it.
pub open spec fn within_world(pos: TilePos) -> bool {
    &&& -0x4000_0000_0000_0000 <= pos.x <= 0x4000_0000_0000_0000
    &&& -0x4000_0000_0000_0000 <= pos.y <= 0x4000_0000_0000_0000
}

/// Whether `v` can be held in an `i64`.
fn in_i64(v: i128) -> (r: bool)
    ensures
        r == fits_i64(v as int),
{
    -0x8000_0000_0000_0000 <= v && v <= 0x7fff_ffff_ffff_ffff
}

/// What the frame keeps between events.
#[derive(Debug, Clone, Copy, PartialEq, Eq, Structural)]
pub struct FrameManager {
    /// The size of the window, as last reported.
    pub window_size: WindowSize,
    /// The pointer, with its vertical axis pointing upward.
    pub mouse_position: PixelPos,
    /// The first tile of the board.
    pub board_position: TilePos,
    /// The number of whole tiles that the window shows on each axis.
    pub board_size: TilePos,
    /// The margin that centres the board in the window.
    pub board_offset: PixelPos,
    /// The number of frames drawn so far.
    pub frame_count: u64,
}

impl FrameManager {
    /// Whether the board was laid out for a window of `window` pixels
    /// around a player at `player`.
    pub open spec fn laid_out(self, window: WindowSize, player: TilePos) -> bool {
        &&& self.board_size == visible_tiles(window)
        &&& (self.board_offset.x as int, self.board_offset.y as int) == viewport_offset(window)
        &&& self.board_position.x == player.x - board_centre(self.board_size).0
        &&& self.board_position.y == player.y - board_centre(self.board_size).1
    }

    /// The pixel at which the player is drawn.
    pub open spec fn player_pixel(self) -> (int, int) {
        (
            board_centre(self.board_size).0 * TILE_SIZE + self.board_offset.x,
            board_centre(self.board_size).1 * TILE_SIZE + self.board_offset.y,
        )
    }

    /// Whether the pixel at which the player is drawn lies within what the
    /// machine's integers hold.
    pub open spec fn player_in_reach(self) -> bool {
        &&& fits_i64(board_centre(self.board_size).0 * TILE_SIZE)
        &&& fits_i64(board_centre(self.board_size).1 * TILE_SIZE)
        &&& fits_i64(self.player_pixel().0)
        &&& fits_i64(self.player_pixel().1)
    }

    /// The tile that the pointer points at when the player stands on
    /// `player`.
    pub open spec fn pointed_tile(self, player: TilePos) -> (int, int) {
        (
            pixel_to_rel_tile(
                self.mouse_position.x as int,
                self.mouse_position.y as int,
                self.window_size,
            ).0 + player.x,
            pixel_to_rel_tile(
                self.mouse_position.x as int,
                self.mouse_position.y as int,
                self.window_size,
            ).1 + player.y,
        )
    }

    /// Whether the tile that the pointer points at can be found within the
    /// machine's integers.
    pub open spec fn pointer_in_reach(self, player: TilePos) -> bool {
        &&& fits_i64(self.mouse_position.x - self.window_size.width / 2)
        &&& fits_i64(self.mouse_position.y - self.window_size.height / 2)
        &&& fits_i64(self.pointed_tile(player).0)
        &&& fits_i64(self.pointed_tile(player).1)
    }

    /// Whether the tile that the pointer points at can be found when the
    /// player stands on `player_pos`, so that `pointed_at` and
    /// `mouse_pressed` may be called.
    pub fn pointer_reaches(&self, player_pos: &TilePos) -> (r: bool)
        ensures
            r == self.pointer_in_reach(*player_pos),
    {
        let rel_x: i128 = self.mouse_position.x as i128 - (self.window_size.width / 2) as i128;
        let rel_y: i128 = self.mouse_position.y as i128 - (self.window_size.height / 2) as i128;
        if !in_i64(rel_x) || !in_i64(rel_y) {
            return false;
        }
        let tile_x: i128 = rel_x / (TILE_SIZE as i128) + player_pos.x as i128;
        let tile_y: i128 = rel_y / (TILE_SIZE as i128) + player_pos.y as i128;
        in_i64(tile_x) && in_i64(tile_y)
    }

    /// Whether a frame can be laid out around a player at `player_pos`
    /// once more, so that `frame` may be called.
    pub fn frame_reaches(&self, player_pos: &TilePos) -> (r: bool)
        ensures
            r == (self.frame_count < u64::MAX && within_world(*player_pos)),
    {
        self.frame_count < u64::MAX && -0x4000_0000_0000_0000 <= player_pos.x && player_pos.x
            <= 0x4000_0000_0000_0000 && -0x4000_0000_0000_0000 <= player_pos.y && player_pos.y
            <= 0x4000_0000_0000_0000
    }

    /// A frame manager before the first event: no window, no frame drawn.
    pub fn new() -> (r: FrameManager)
        ensures
            r == (FrameManager {
                window_size: WindowSize { width: 0, height: 0 },
                mouse_position: PixelPos { x: 0, y: 0 },
                board_position: TilePos { x: 0, y: 0 },
                board_size: TilePos { x: 0, y: 0 },
                board_offset: PixelPos { x: 0, y: 0 },
                frame_count: 0,
            }),
    {
        FrameManager {
            window_size: WindowSize { width: 0, height: 0 },
            mouse_position: PixelPos { x: 0, y: 0 },
            board_position: TilePos { x: 0, y: 0 },
            board_size: TilePos { x: 0, y: 0 },
            board_offset: PixelPos { x: 0, y: 0 },
            frame_count: 0,
        }
    }

    /// The window was resized to `new_size`.
    pub fn resized(&mut self, new_size: WindowSize)
        ensures
            *final(self) == (FrameManager { window_size: new_size, ..*old(self) }),
    {
        self.window_size = new_size;
    }

    /// The pointer moved to the pixel `(x, y)` of a window whose inner size
    /// is `inner_size`, counted from the window's top left corner.
    pub fn cursor_moved(&mut self, x: i64, y: i64, inner_size: WindowSize)
        requires
            fits_i64(inner_size.height - y),
        ensures
            (final(self).mouse_position.x as int, final(self).mouse_position.y as int)
                == mouse_to_pixel(x as int, y as int, inner_size),
            *final(self) == (FrameManager {
                mouse_position: final(self).mouse_position,
                ..*old(self)
            }),
    {
        self.mouse_position = PixelPos::from_mouse(x, y, inner_size);
    }

    /// The tile that the pointer points at when the player, drawn at the
    /// centre of the window, stands on `player_pos`.
    pub fn pointed_at(&self, player_pos: &TilePos) -> (r: TilePos)
        requires
            self.pointer_in_reach(*player_pos),
        ensures
            (r.x as int, r.y as int) == self.pointed_tile(*player_pos),
    {
        self.mouse_position.to_rel_tile_pos(self.window_size).to_world_tile(player_pos)
    }

    /// A button of the pointer was pressed while the player stood on
    /// `player_pos`: the left button asks for a move to the tile that the
    /// pointer points at.
    pub fn mouse_pressed(
        &self,
        button: MouseButton,
        player_pos: &TilePos,
        control_manager: &mut ControlManager,
    )
        requires
            self.pointer_in_reach(*player_pos),
        ensures
            final(control_manager).pending_action == if button == MouseButton::Left {
                fresh_move(
                    TilePos {
                        x: self.pointed_tile(*player_pos).0 as i64,
                        y: self.pointed_tile(*player_pos).1 as i64,
                    },
                )
            } else {
                old(control_manager).pending_action
            },
    {
        let clicked = self.pointed_at(player_pos);
        control_manager.click(button, clicked);
    }

    /// A key was pressed while the player stood on `player_pos`.
    pub fn key_pressed(
        &self,
        keycode: KeyCode,
        player_pos: &TilePos,
        control_manager: &mut ControlManager,
    )
        requires
            key_step(keycode) matches Some(step) ==> fits_i64(player_pos.x + step.0) && fits_i64(
                player_pos.y + step.1,
            ),
        ensures
            final(control_manager).pending_action == match key_step(keycode) {
                Some(step) => fresh_move(
                    TilePos {
                        x: (player_pos.x + step.0) as i64,
                        y: (player_pos.y + step.1) as i64,
                    },
                ),
                None => None,
            },
    {
        control_manager.press(keycode, *player_pos);
    }

    /// Begins a frame in a window of `window_size` pixels around a player
    /// at `player_pos`: counts the frame and lays the board out, as many
    /// whole tiles as fit, centred in the window, with the player's tile in
    /// the middle of the board.
    pub fn begin_frame(&mut self, window_size: WindowSize, player_pos: &TilePos)
        requires
            old(self).frame_count < u64::MAX,
            fits_i64(player_pos.x - board_centre(visible_tiles(window_size)).0),
            fits_i64(player_pos.y - board_centre(visible_tiles(window_size)).1),
        ensures
            final(self).laid_out(window_size, *player_pos),
            final(self).frame_count == old(self).frame_count + 1,
            final(self).window_size == old(self).window_size,
            final(self).mouse_position == old(self).mouse_position,
    {
        self.frame_count = self.frame_count + 1;
        self.board_size = TilePos::from(window_size);
        self.board_offset = PixelPos::viewport_offset(window_size);
        let centre = TilePos { x: self.board_size.x / 2, y: self.board_size.y / 2 };
        self.board_position = std::ops::Sub::sub(*player_pos, &centre);
    }

    /// Draws one frame in a window of `window_size` pixels: begins the
    /// frame around the player, loads the board into the world, and lists
    /// the sprites to draw.
    pub fn frame<G: Fn(i64, i64) -> i64, R: Fn(i64, i64) -> i64>(
        &mut self,
        window_size: WindowSize,
        world: &mut World<G, R>,
        atlas: &Atlas,
    ) -> (r: Result<Vec<SpriteDraw>, Error>)
        requires
            old(world).wf(),
            old(self).frame_count < u64::MAX,
            within_world(old(world).player@.position),
        ensures
            final(self).laid_out(window_size, old(world).player@.position),
            final(self).frame_count == old(self).frame_count + 1,
            final(self).window_size == old(self).window_size,
            final(self).mouse_position == old(self).mouse_position,
            final(world).wf(),
            final(world).player == old(world).player,
            loaded(
                old(world).terrain.ground(),
                old(world).terrain.resource(),
                old(world).cache(),
                final(world).cache(),
                final(self).board_position,
                final(self).board_size,
            ),
            match frame_sprites(
                atlas,
                final(self).frame_count,
                window_draws(
                    final(world).cache(),
                    final(self).board_position,
                    final(self).board_size,
                    final(self).board_offset,
                ),
                final(world).player,
                final(self).player_pixel(),
            ) {
                Ok(sprites) => r matches Ok(list) && list@ == sprites,
                Err(error) => r == Err::<Vec<SpriteDraw>, Error>(error),
            },
    {
        let player_pos = *world.player.get_position();
        self.begin_frame(window_size, &player_pos);
        world.load(self.board_position, self.board_size);
        self.render(world, atlas)
    }

    /// Lists the sprites that show `tiles`, each tile's ground and then
    /// its resource. A resource without a sprite is left out; a ground
    /// without one fails the whole.
    pub fn tile_layer(atlas: &Atlas, frame: u64, tiles: &Vec<TileDraw>) -> (r: Result<
        Vec<SpriteDraw>,
        Error,
    >)
        ensures
            match tiles_sprites(atlas, frame, tiles@) {
                Ok(sprites) => r matches Ok(list) && list@ == sprites,
                Err(error) => r == Err::<Vec<SpriteDraw>, Error>(error),
            },
    {
        let mut out: Vec<SpriteDraw> = Vec::new();
        let mut k: usize = 0;
        while k < tiles.len()
            invariant
                0 <= k <= tiles@.len(),
                tiles_sprites(atlas, frame, tiles@.take(k as int)) == Ok::<Seq<SpriteDraw>, Error>(
                    out@,
                ),
            decreases tiles@.len() - k,
        {
            let tile = tiles[k];
            proof {
                assert(tiles@.take(k + 1).drop_last() =~= tiles@.take(k as int));
                assert(tiles@.take(k + 1).last() == tiles@[k as int]);
            }
            match tile.ground.draw(atlas, frame) {
                Err(error) => {
                    proof {
                        lemma_tiles_sprites_fail(atlas, frame, tiles@, k + 1);
                    }
                    return Err(error);
                },
                Ok(ground) => {
                    let ghost before = out@;
                    out.push(SpriteDraw { section: ground, pos: tile.pos });
                    match tile.resource.draw(atlas, frame) {
                        Ok(resource) => {
                            out.push(SpriteDraw { section: resource, pos: tile.pos });
                            assert(out@ =~= before + seq![
                                SpriteDraw { section: ground, pos: tile.pos },
                                SpriteDraw { section: resource, pos: tile.pos },
                            ]);
                        },
                        Err(_) => {
                            assert(out@ =~= before + seq![
                                SpriteDraw { section: ground, pos: tile.pos },
                            ]);
                        },
                    }
                },
            }
            k = k + 1;
        }
        assert(tiles@.take(k as int) =~= tiles@);
        Ok(out)
    }

    /// Lists the sprites of the frame that was begun: the tiles of the
    /// board, and last the player in the middle of it. A ground or a player
    /// without a sprite fails the frame.
    pub fn render<G: Fn(i64, i64) -> i64, R: Fn(i64, i64) -> i64>(
        &self,
        world: &World<G, R>,
        atlas: &Atlas,
    ) -> (r: Result<Vec<SpriteDraw>, Error>)
        requires
            world.wf(),
            window_in_reach(self.board_position, self.board_size),
            draw_in_reach(self.board_size, self.board_offset),
            crate::world::window_loaded(world.cache(), self.board_position, self.board_size),
            self.player_in_reach(),
        ensures
            match frame_sprites(
                atlas,
                self.frame_count,
                window_draws(world.cache(), self.board_position, self.board_size, self.board_offset),
                world.player,
                self.player_pixel(),
            ) {
                Ok(sprites) => r matches Ok(list) && list@ == sprites,
                Err(error) => r == Err::<Vec<SpriteDraw>, Error>(error),
            },
    {
        let tiles = world.draw(self.board_position, self.board_size, self.board_offset);
        match FrameManager::tile_layer(atlas, self.frame_count, &tiles) {
            Err(error) => Err(error),
            Ok(mut sprites) => match world.player.draw(atlas, self.frame_count) {
                Err(error) => Err(error),
                Ok(section) => {
                    let centre = TilePos { x: self.board_size.x / 2, y: self.board_size.y / 2 };
                    let pos = std::ops::Add::add(PixelPos::from_tile(centre), &self.board_offset);
                    sprites.push(SpriteDraw { section, pos });
                    Ok(sprites)
                },
            },
        }
    }
}

/// The sprites of a frame: those of the tiles, and last the player at
/// `player_at`. A ground or a player without a sprite is an error.
pub open spec fn frame_sprites(
    atlas: &Atlas,
    frame: u64,
    tiles: Seq<TileDraw>,
    player: Player,
    player_at: (int, int),
) -> Result<Seq<SpriteDraw>, Error> {
    match tiles_sprites(atlas, frame, tiles) {
        Err(error) => Err(error),
        Ok(sprites) => match player.drawn(atlas, frame) {
            Err(error) => Err(error),
            Ok(section) => Ok(
                sprites.push(
                    SpriteDraw {
                        section,
                        pos: PixelPos { x: player_at.0 as i64, y: player_at.1 as i64 },
                    },
                ),
            ),
        },
    }
}

/// Once the tiles up to `upto` fail to be drawn, all the tiles do.
pub proof fn lemma_tiles_sprites_fail(atlas: &Atlas, frame: u64, tiles: Seq<TileDraw>, upto: int)
    requires
        0 <= upto <= tiles.len(),
        tiles_sprites(atlas, frame, tiles.take(upto)) is Err,
    ensures
        tiles_sprites(atlas, frame, tiles) == tiles_sprites(atlas, frame, tiles.take(upto)),
    decreases tiles.len() - upto,
{
    if upto == tiles.len() {
        assert(tiles.take(upto) =~= tiles);
    } else {
        assert(tiles.take(upto + 1).drop_last() =~= tiles.take(upto));
        lemma_tiles_sprites_fail(atlas, frame, tiles, upto + 1);
    }
}

} // verus!
