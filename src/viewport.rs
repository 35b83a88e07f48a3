//! World space to screen space and back.
use vstd::prelude::*;

verus! {

/// World units covered by one character cell, in both directions.
pub const WORLD_UNITS_PER_CHAR: i64 = 10;

/// A point in world space, in whole world units.
#[derive(Clone, Copy, Debug, PartialEq, Eq, Structural)]
pub struct WorldPos {
    pub x: i32,
    pub y: i32,
}

impl WorldPos {
    pub fn new(x: i32, y: i32) -> (r: WorldPos)
        ensures
            r.x == x,
            r.y == y,
    {
        WorldPos { x, y }
    }

    pub fn zero() -> (r: WorldPos)
        ensures
            r.x == 0,
            r.y == 0,
    {
        WorldPos { x: 0, y: 0 }
    }

    pub open spec fn is_origin(self) -> bool {
        self.x == 0 && self.y == 0
    }
}

/// The number of cells that a world offset moves away from the screen
/// centre: the offset divided by the cell size, rounded to nearest, with
/// halves rounded away from zero.
pub open spec fn cell_offset(offset: int) -> int {
    if offset >= 0 {
        (offset + 5) / (WORLD_UNITS_PER_CHAR as int)
    } else {
        -((-offset + 5) / (WORLD_UNITS_PER_CHAR as int))
    }
}

/// The screen coordinate, along one axis, of world coordinate `p` seen
/// from a camera at `cam` on a screen `size` cells wide.
pub open spec fn screen_axis(p: int, cam: int, size: int) -> int {
    size / 2 + cell_offset(p - cam)
}

/// Whether a screen coordinate lies on a screen `size` cells wide.
pub open spec fn on_axis(s: int, size: int) -> bool {
    0 <= s < size
}

/// Where `p` lands on a `w` x `h` screen around `cam`, if it lands at all.
pub open spec fn world_to_screen_spec(p: WorldPos, cam: WorldPos, w: int, h: int) -> Option<(int, int)> {
    let sx = screen_axis(p.x as int, cam.x as int, w);
    let sy = screen_axis(p.y as int, cam.y as int, h);
    if on_axis(sx, w) && on_axis(sy, h) {
        Some((sx, sy))
    } else {
        None
    }
}

/// A screen cell as a pair of integers.
pub open spec fn cell_of(c: Option<(usize, usize)>) -> Option<(int, int)> {
    match c {
        Some(c) => Some((c.0 as int, c.1 as int)),
        None => None,
    }
}

/// `v` limited to what a world coordinate can hold.
pub open spec fn clamp_coord(v: int) -> int {
    if v < i32::MIN as int {
        i32::MIN as int
    } else if v > i32::MAX as int {
        i32::MAX as int
    } else {
        v
    }
}

/// The world coordinate, along one axis, at the centre of screen cell `s`.
pub open spec fn world_axis(s: int, cam: int, size: int) -> int {
    clamp_coord(cam + (s - size / 2) * (WORLD_UNITS_PER_CHAR as int))
}

/// A world offset in cells, rounded to nearest with halves away from zero.
fn round_to_cell(offset: i64) -> (q: i64)
    requires
        -0x3_0000_0000 <= offset <= 0x3_0000_0000,
    ensures
        q as int == cell_offset(offset as int),
        -0x1_0000_0000 <= q <= 0x1_0000_0000,
{
    if offset >= 0 {
        (offset + 5) / WORLD_UNITS_PER_CHAR
    } else {
        -((-offset + 5) / WORLD_UNITS_PER_CHAR)
    }
}

/// Viewport: the extent of the world shown on screen.
#[derive(Clone, Copy, Debug)]
pub struct ViewportManager {
    /// Width of the view, in world units.
    pub view_width: u32,
    /// Height of the view, in world units.
    pub view_height: u32,
}

impl ViewportManager {
    pub open spec fn wf(self) -> bool {
        self.view_width > 0 && self.view_height > 0
    }

    pub fn new(width: u32, height: u32) -> (r: ViewportManager)
        requires
            width > 0,
            height > 0,
        ensures
            r.view_width == width,
            r.view_height == height,
            r.wf(),
    {
        ViewportManager { view_width: width, view_height: height }
    }

    /// The screen cell `(column, row)` where `world_pos` is drawn, with the
    /// camera centre in the middle of a `screen_width` x `screen_height`
    /// screen; `None` when it falls off the screen.
    pub fn world_to_screen(
        &self,
        world_pos: WorldPos,
        camera_center: WorldPos,
        screen_width: usize,
        screen_height: usize,
    ) -> (r: Option<(usize, usize)>)
        ensures
            cell_of(r) == world_to_screen_spec(world_pos, camera_center, screen_width as int, screen_height as int),
    {
        let sx = Self::screen_axis_exec(world_pos.x, camera_center.x, screen_width);
        let sy = Self::screen_axis_exec(world_pos.y, camera_center.y, screen_height);
        match (sx, sy) {
            (Some(x), Some(y)) => Some((x, y)),
            _ => None,
        }
    }

    fn screen_axis_exec(p: i32, cam: i32, size: usize) -> (r: Option<usize>)
        ensures
            r matches Some(s) ==> s as int == screen_axis(p as int, cam as int, size as int)
                && on_axis(s as int, size as int),
            r is None ==> !on_axis(screen_axis(p as int, cam as int, size as int), size as int),
    {
        let off: i64 = p as i64 - cam as i64;
        let q: i64 = round_to_cell(off);
        let half: usize = size / 2;
        if q >= 0 {
            let qu: u64 = q as u64;
            if (size - half) as u64 > qu {
                Some(half + qu as usize)
            } else {
                None
            }
        } else {
            let back: u64 = (-q) as u64;
            if back <= half as u64 {
                Some(half - back as usize)
            } else {
                None
            }
        }
    }

    /// The world position at the centre of screen cell
    /// `(screen_x, screen_y)`; coordinates beyond what a world position
    /// holds are held at its bounds.
    pub fn screen_to_world(
        &self,
        screen_x: u16,
        screen_y: u16,
        camera_center: WorldPos,
        screen_width: usize,
        screen_height: usize,
    ) -> (r: WorldPos)
        ensures
            r.x as int == world_axis(screen_x as int, camera_center.x as int, screen_width as int),
            r.y as int == world_axis(screen_y as int, camera_center.y as int, screen_height as int),
    {
        WorldPos {
            x: Self::world_axis_exec(screen_x, camera_center.x, screen_width),
            y: Self::world_axis_exec(screen_y, camera_center.y, screen_height),
        }
    }

    fn world_axis_exec(s: u16, cam: i32, size: usize) -> (r: i32)
        ensures
            r as int == world_axis(s as int, cam as int, size as int),
    {
        let half: usize = size / 2;
        let v: i64 = if half > s as usize {
            let d: usize = half - s as usize;
            if d > 0x4000_0000 {
                i32::MIN as i64
            } else {
                cam as i64 - d as i64 * WORLD_UNITS_PER_CHAR
            }
        } else {
            cam as i64 + (s as usize - half) as i64 * WORLD_UNITS_PER_CHAR
        };
        if v < i32::MIN as i64 {
            i32::MIN
        } else if v > i32::MAX as i64 {
            i32::MAX
        } else {
            v as i32
        }
    }
}

} // verus!

verus! {

/// A position drawn on screen lands on a cell of the screen, and that cell
/// maps back to a world position at most half a cell away from it, on both
/// axes. The cell is below the screen size, so it fits whatever type holds
/// the size (a `u16` for a terminal).
pub proof fn lemma_round_trip(p: WorldPos, cam: WorldPos, w: int, h: int)
    requires
        world_to_screen_spec(p, cam, w, h) is Some,
    ensures
        ({
            let c = world_to_screen_spec(p, cam, w, h).unwrap();
            let bx = world_axis(c.0, cam.x as int, w);
            let by = world_axis(c.1, cam.y as int, h);
            &&& 0 <= c.0 < w && 0 <= c.1 < h
            &&& -5 <= bx - p.x <= 5 && -5 <= by - p.y <= 5
        }),
{
    let c = world_to_screen_spec(p, cam, w, h).unwrap();
    lemma_axis_round_trip(p.x as int, cam.x as int, w);
    lemma_axis_round_trip(p.y as int, cam.y as int, h);
}

proof fn lemma_axis_round_trip(p: int, cam: int, size: int)
    requires
        i32::MIN <= p <= i32::MAX,
    ensures
        -5 <= world_axis(screen_axis(p, cam, size), cam, size) - p <= 5,
{
    let off = p - cam;
    if off >= 0 {
        let q = (off + 5) / 10;
        vstd::arithmetic::div_mod::lemma_fundamental_div_mod(off + 5, 10);
        assert(0 <= (off + 5) % 10 < 10);
        assert(screen_axis(p, cam, size) - size / 2 == q);
        assert(cam + q * 10 - p == 5 - (off + 5) % 10);
    } else {
        let k = (-off + 5) / 10;
        vstd::arithmetic::div_mod::lemma_fundamental_div_mod(-off + 5, 10);
        assert(0 <= (-off + 5) % 10 < 10);
        assert(screen_axis(p, cam, size) - size / 2 == -k);
        assert(cam - k * 10 - p == (-off + 5) % 10 - 5);
    }
}

/// The screen edge is half-open and decided by the inputs alone: a
/// position is drawn exactly when its cell lies in `[0, w) x [0, h)`, so a
/// position on the edge is drawn on every call or on none.
pub proof fn lemma_edge_consistent(p: WorldPos, cam: WorldPos, w: int, h: int)
    ensures
        world_to_screen_spec(p, cam, w, h) is Some <==> (
            0 <= screen_axis(p.x as int, cam.x as int, w) < w
            && 0 <= screen_axis(p.y as int, cam.y as int, h) < h),
        screen_axis(p.x as int, cam.x as int, w) == w ==> world_to_screen_spec(p, cam, w, h) is None,
        w > 0 && screen_axis(p.x as int, cam.x as int, w) == w - 1 && on_axis(screen_axis(p.y as int, cam.y as int, h), h)
            ==> world_to_screen_spec(p, cam, w, h) is Some,
{
}

} // verus!
