//! A side-scrolling demo: a player that runs right, jumps for a while, and a
//! level that grows as the camera follows the player.
use vstd::prelude::*;
use crate::rect::{Rect, RectView, clamp_position, MAX_INT_VALUE};

verus! {

/// Width of the screen in pixels.
pub const CAM_W: u32 = 1280;

/// Height of the screen in pixels.
pub const CAM_H: u32 = 720;

/// Side of a tile.
pub const TILE_SIZE: u32 = 100;

/// The camera follows the player once the player is left of this column of
/// the screen.
pub const LTHIRD: i32 = 376;

/// The camera follows the player once the player is right of this column of
/// the screen.
pub const RTHIRD: i32 = 803;

/// Fastest speed in either direction on either axis.
pub const SPEED_LIMIT: i32 = 5;

/// Frames a jump keeps pushing the player up, less one.
pub const JUMP_FRAMES: i32 = 30;

/// A velocity change that resists motion: where no change is asked for
/// (`deltav == 0`), one step against the direction of `vel`.
pub open spec fn resisted(vel: int, deltav: int) -> int {
    if deltav == 0 {
        if vel > 0 {
            -1
        } else if vel < 0 {
            1
        } else {
            0
        }
    } else {
        deltav
    }
}

/// The velocity change to apply: `deltav` where one is asked for, otherwise
/// one step slowing the motion down.
pub fn resist(vel: i32, deltav: i32) -> (r: i32)
    ensures
        r == resisted(vel as int, deltav as int),
{
    if deltav == 0 {
        if vel > 0 {
            -1
        } else if vel < 0 {
            1
        } else {
            deltav
        }
    } else {
        deltav
    }
}

/// `v` clamped into `[lo, hi]`.
pub open spec fn clamped(v: int, lo: int, hi: int) -> int {
    if v < lo {
        lo
    } else if v > hi {
        hi
    } else {
        v
    }
}

fn clamp_i32(v: i32, lo: i32, hi: i32) -> (r: i32)
    requires
        lo <= hi,
    ensures
        r == clamped(v as int, lo as int, hi as int),
{
    if v < lo {
        lo
    } else if v > hi {
        hi
    } else {
        v
    }
}

/// The demo's player: a box on the screen.
pub struct Player {
    pos: Rect,
}

impl Player {
    pub fn new(pos: Rect) -> (p: Player)
        ensures
            p.pos_view() == pos@,
    {
        Player { pos }
    }

    pub closed spec fn pos_view(&self) -> RectView {
        self.pos@
    }

    pub fn x(&self) -> (r: i32)
        ensures
            r == self.pos_view().x,
            self.pos_view().wf(),
    {
        self.pos.x()
    }

    pub fn y(&self) -> (r: i32)
        ensures
            r == self.pos_view().y,
            self.pos_view().wf(),
    {
        self.pos.y()
    }

    /// Moves the player by `vel`, keeping each coordinate within its bounds.
    pub fn update_pos(&mut self, vel: (i32, i32), x_bounds: (i32, i32), y_bounds: (i32, i32))
        requires
            x_bounds.0 <= x_bounds.1,
            y_bounds.0 <= y_bounds.1,
            i32::MIN <= old(self).pos_view().x + vel.0 <= i32::MAX,
            i32::MIN <= old(self).pos_view().y + vel.1 <= i32::MAX,
        ensures
            final(self).pos_view() == (RectView {
                x: clamp_position(
                    clamped(old(self).pos_view().x + vel.0, x_bounds.0 as int, x_bounds.1 as int),
                ),
                y: clamp_position(
                    clamped(old(self).pos_view().y + vel.1, y_bounds.0 as int, y_bounds.1 as int),
                ),
                ..old(self).pos_view()
            }),
    {
        let x = self.pos.x();
        self.pos.set_x(clamp_i32(x + vel.0, x_bounds.0, x_bounds.1));
        let y = self.pos.y();
        self.pos.set_y(clamp_i32(y + vel.1, y_bounds.0, y_bounds.1));
    }
}

/// The demo.
pub struct Demo;

impl Demo {
    pub fn init() -> (r: Result<Demo, String>)
        ensures
            r is Ok,
    {
        Ok(Demo)
    }
}

/// The state of the demo between frames.
pub struct DemoState {
    pub player: Player,
    /// How far the camera has scrolled right.
    pub scroll_offset: i32,
    /// Length of the level; it grows and shrinks by a screen as the camera
    /// passes certain points.
    pub level_len: u32,
    /// Frame counter of the running animation.
    pub frames: i32,
    /// Left edge of the animation frame drawn.
    pub src_x: i32,
    /// The player faces left.
    pub flip: bool,
    pub x_vel: i32,
    pub y_vel: i32,
    /// A jump is pushing the player up.
    pub jump: bool,
    /// Frames of the current jump; counts down again before the next jump.
    pub jump_ct: i32,
}

/// The demo after a frame, as far as the frame's decisions go.
pub struct DemoView {
    pub pos: RectView,
    pub scroll_offset: int,
    pub level_len: int,
    pub frames: int,
    pub src_x: int,
    pub flip: bool,
    pub x_vel: int,
    pub y_vel: int,
    pub jump: bool,
    pub jump_ct: int,
}

/// The level length after passing the checkpoints of the camera at
/// `scroll_offset`: a screen longer when the right third of the screen reaches
/// a screen boundary, a screen shorter when the left third does.
pub open spec fn level_grow(scroll_offset: int, level_len: int) -> int {
    if (scroll_offset + RTHIRD) % (CAM_W as int) == 0 {
        level_len + CAM_W
    } else {
        level_len
    }
}

pub open spec fn level_shrink(scroll_offset: int, level_len: int) -> int {
    if (scroll_offset - LTHIRD) % (CAM_W as int) == 0 {
        level_len - CAM_W
    } else {
        level_len
    }
}

impl DemoView {
    /// The bounds every frame keeps.
    pub open spec fn wf(self) -> bool {
        &&& -SPEED_LIMIT <= self.x_vel <= SPEED_LIMIT
        &&& -SPEED_LIMIT <= self.y_vel <= SPEED_LIMIT
        &&& 0 <= self.jump_ct <= JUMP_FRAMES + 1
        &&& self.jump ==> self.jump_ct <= JUMP_FRAMES
        &&& 0 <= self.frames < 24
        &&& 0 <= self.scroll_offset
        &&& self.pos.wf()
    }

    /// The frame can run without overflow and with non-empty bounds: the
    /// level neither grows past `u32` nor shrinks below a screen, the player's
    /// bound derived from it stays within `i32`, and where the camera moves,
    /// so does its bound.
    pub open spec fn step_ok(self, jump_pressed: bool) -> bool {
        let grown = level_grow(self.scroll_offset, self.level_len);
        let len = level_shrink(self.scroll_offset, grown);
        let px = self.step(jump_pressed).pos.x;
        &&& self.scroll_offset + RTHIRD <= i32::MAX
        &&& grown <= u32::MAX
        &&& (self.scroll_offset - LTHIRD) % (CAM_W as int) == 0 ==> grown >= CAM_W
        &&& TILE_SIZE <= len <= i32::MAX + TILE_SIZE
        &&& (px > self.scroll_offset + RTHIRD || px < self.scroll_offset + LTHIRD) ==> CAM_W <= len
            <= i32::MAX + CAM_W
    }

    /// The next state, where the player pressed a jump key in the frame
    /// exactly when `jump_pressed`.
    pub open spec fn step(self, jump_pressed: bool) -> DemoView {
        let jump0 = self.jump || (jump_pressed && self.jump_ct == 0);
        let len = level_shrink(self.scroll_offset, level_grow(self.scroll_offset, self.level_len));
        let ct1 = if jump0 {
            self.jump_ct + 1
        } else {
            self.jump_ct
        };
        let jump1 = jump0 && ct1 <= JUMP_FRAMES;
        let y_dv = if jump0 && ct1 <= JUMP_FRAMES {
            -1
        } else {
            1
        };
        let ct2 = if !jump1 && ct1 > 0 {
            ct1 - 1
        } else {
            ct1
        };
        let x_vel = clamped(self.x_vel + resisted(self.x_vel, 1), -SPEED_LIMIT as int, SPEED_LIMIT as int);
        let y_vel = clamped(self.y_vel + resisted(self.y_vel, y_dv), -SPEED_LIMIT as int, SPEED_LIMIT as int);
        let px = clamp_position(clamped(self.pos.x + x_vel, 0, len - TILE_SIZE));
        let py = clamp_position(clamped(self.pos.y + y_vel, 0, (CAM_H - 2 * TILE_SIZE) as int));
        let scroll = if px > self.scroll_offset + RTHIRD {
            clamped(px - RTHIRD, 0, len - CAM_W)
        } else if px < self.scroll_offset + LTHIRD {
            clamped(px - LTHIRD, 0, len - CAM_W)
        } else {
            self.scroll_offset
        };
        let flip = if x_vel > 0 && self.flip {
            false
        } else if x_vel < 0 && !self.flip {
            true
        } else {
            self.flip
        };
        let frames = if x_vel != 0 {
            if (self.frames + 1) / 6 > 3 {
                0
            } else {
                self.frames + 1
            }
        } else {
            self.frames
        };
        let src_x = if x_vel != 0 {
            (frames / 6) * 100
        } else {
            self.src_x
        };
        DemoView {
            pos: RectView { x: px, y: py, ..self.pos },
            scroll_offset: scroll,
            level_len: len,
            frames: frames,
            src_x: src_x,
            flip: flip,
            x_vel: x_vel,
            y_vel: y_vel,
            jump: jump1,
            jump_ct: ct2,
        }
    }
}

/// Where the scenery is drawn in a frame.
#[derive(Clone, Copy, Debug, PartialEq, Eq, Structural)]
pub struct DemoLayout {
    /// Left edge of the first background image.
    pub bg_offset: i32,
    /// Left edge of the first brick.
    pub brick_offset: i32,
    /// Which of the four bricks of the sheet the first brick is.
    pub first_brick: i32,
    /// Column of the screen where the player is drawn.
    pub player_x: i32,
}

impl DemoState {
    pub closed spec fn view(&self) -> DemoView {
        DemoView {
            pos: self.player.pos_view(),
            scroll_offset: self.scroll_offset as int,
            level_len: self.level_len as int,
            frames: self.frames as int,
            src_x: self.src_x as int,
            flip: self.flip,
            x_vel: self.x_vel as int,
            y_vel: self.y_vel as int,
            jump: self.jump,
            jump_ct: self.jump_ct as int,
        }
    }

    /// The demo at its start: the player a tile from the left, two tiles above
    /// the bottom, at rest; the level two screens long.
    pub fn new() -> (s: DemoState)
        ensures
            s.view().wf(),
            s.view() == (DemoView {
                pos: RectView::clamped(
                    TILE_SIZE as int,
                    (CAM_H - TILE_SIZE * 2) as int,
                    TILE_SIZE as int,
                    TILE_SIZE as int,
                ),
                scroll_offset: 0,
                level_len: CAM_W * 2,
                frames: 0,
                src_x: 0,
                flip: false,
                x_vel: 0,
                y_vel: 0,
                jump: false,
                jump_ct: 0,
            }),
    {
        let pos = Rect::new(TILE_SIZE as i32, (CAM_H - TILE_SIZE * 2) as i32, TILE_SIZE, TILE_SIZE);
        DemoState {
            player: Player::new(pos),
            scroll_offset: 0,
            level_len: CAM_W * 2,
            frames: 0,
            src_x: 0,
            flip: false,
            x_vel: 0,
            y_vel: 0,
            jump: false,
            jump_ct: 0,
        }
    }

    /// Runs the decisions of one frame: a jump key pressed when no jump is
    /// running or cooling down starts a jump; the level grows or shrinks at
    /// the camera's checkpoints; the jump pushes up for its frames and then
    /// counts down; velocities change by one step each frame within the speed
    /// limit; the player moves within the level; the camera follows the player
    /// when the player leaves the middle third of the screen; the running
    /// animation advances while the player moves.
    pub fn step(&mut self, jump_pressed: bool)
        requires
            old(self).view().wf(),
            old(self).view().step_ok(jump_pressed),
        ensures
            final(self).view() == old(self).view().step(jump_pressed),
            final(self).view().wf(),
    {
        let mut x_deltav: i32 = 1;
        let mut y_deltav: i32 = 1;
        if jump_pressed && !self.jump && self.jump_ct == 0 {
            self.jump = true;
        }
        if (self.scroll_offset + RTHIRD) % CAM_W as i32 == 0 {
            self.level_len = self.level_len + CAM_W;
        }
        if (self.scroll_offset - LTHIRD) % CAM_W as i32 == 0 {
            self.level_len = self.level_len - CAM_W;
        }
        if self.jump {
            self.jump_ct = self.jump_ct + 1;
            y_deltav = -1;
        }
        if self.jump_ct > JUMP_FRAMES {
            self.jump = false;
            y_deltav = 1;
        }
        if !self.jump && self.jump_ct > 0 {
            self.jump_ct = self.jump_ct - 1;
        }
        x_deltav = resist(self.x_vel, x_deltav);
        y_deltav = resist(self.y_vel, y_deltav);
        self.x_vel = clamp_i32(self.x_vel + x_deltav, -SPEED_LIMIT, SPEED_LIMIT);
        self.y_vel = clamp_i32(self.y_vel + y_deltav, -SPEED_LIMIT, SPEED_LIMIT);
        let x_hi = (self.level_len - TILE_SIZE) as i32;
        let y_hi = (CAM_H - 2 * TILE_SIZE) as i32;
        self.player.update_pos((self.x_vel, self.y_vel), (0, x_hi), (0, y_hi));
        let px = self.player.x();
        self.scroll_offset = if px > self.scroll_offset + RTHIRD {
            clamp_i32(px - RTHIRD, 0, (self.level_len - CAM_W) as i32)
        } else if px < self.scroll_offset + LTHIRD {
            clamp_i32(px - LTHIRD, 0, (self.level_len - CAM_W) as i32)
        } else {
            self.scroll_offset
        };
        self.flip = if self.x_vel > 0 && self.flip {
            false
        } else if self.x_vel < 0 && !self.flip {
            true
        } else {
            self.flip
        };
        if self.x_vel != 0 {
            self.frames = if (self.frames + 1) / 6 > 3 {
                0
            } else {
                self.frames + 1
            };
            self.src_x = (self.frames / 6) * 100;
        }
    }

    /// Whether the next frame can run, with a jump key pressed in it exactly
    /// when `jump_pressed`: the frame's arithmetic stays within its integer
    /// types and its bounds are not empty (see `DemoView::step_ok`).
    pub fn can_step(&self, jump_pressed: bool) -> (r: bool)
        requires
            self.view().wf(),
        ensures
            r == self.view().step_ok(jump_pressed),
    {
        let scroll: i64 = self.scroll_offset as i64;
        if scroll + RTHIRD as i64 > i32::MAX as i64 {
            return false;
        }
        let grown: i64 = if (scroll + RTHIRD as i64) % CAM_W as i64 == 0 {
            self.level_len as i64 + CAM_W as i64
        } else {
            self.level_len as i64
        };
        if grown > u32::MAX as i64 {
            return false;
        }
        let shrinks = (scroll - LTHIRD as i64) % CAM_W as i64 == 0;
        if shrinks && grown < CAM_W as i64 {
            return false;
        }
        let len: i64 = if shrinks {
            grown - CAM_W as i64
        } else {
            grown
        };
        if len < TILE_SIZE as i64 || len > i32::MAX as i64 + TILE_SIZE as i64 {
            return false;
        }
        let x_vel = clamp_i32(self.x_vel + resist(self.x_vel, 1), -SPEED_LIMIT, SPEED_LIMIT);
        let target: i64 = self.player.x() as i64 + x_vel as i64;
        let hi: i64 = len - TILE_SIZE as i64;
        let cx: i64 = if target < 0 {
            0
        } else if target > hi {
            hi
        } else {
            target
        };
        let px: i64 = if cx > MAX_INT_VALUE as i64 {
            MAX_INT_VALUE as i64
        } else {
            cx
        };
        let moves = px > scroll + RTHIRD as i64 || px < scroll + LTHIRD as i64;
        !moves || (CAM_W as i64 <= len && len <= i32::MAX as i64 + CAM_W as i64)
    }

    /// Where to draw the scenery and the player for the current scroll.
    pub fn layout(&self) -> (l: DemoLayout)
        requires
            self.view().wf(),
            i32::MIN <= self.view().pos.x - self.view().scroll_offset,
        ensures
            l.bg_offset == -(self.view().scroll_offset % (CAM_W as int)),
            l.brick_offset == -(self.view().scroll_offset % (TILE_SIZE as int)),
            l.first_brick == (self.view().scroll_offset % (TILE_SIZE as int * 4)) / (
            TILE_SIZE as int),
            l.player_x == self.view().pos.x - self.view().scroll_offset,
    {
        let px = self.player.x();
        DemoLayout {
            bg_offset: -(self.scroll_offset % CAM_W as i32),
            brick_offset: -(self.scroll_offset % TILE_SIZE as i32),
            first_brick: (self.scroll_offset % (TILE_SIZE as i32 * 4)) / TILE_SIZE as i32,
            player_x: px - self.scroll_offset,
        }
    }
}

} // verus!
