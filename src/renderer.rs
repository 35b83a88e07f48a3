//! Builds each frame as a grid of glyphs and the paint commands for it.
use vstd::prelude::*;
use vstd::pervasive::VecAdditionalExecFns;
use vstd::string::StrSliceExecFns;
use crate::display::{Color, MapDisplay, Role, role_glyph};
use crate::paint::{PaintOp, map_ops, row_ops, rows_ops};
use crate::terminal_logger::{TerminalLogger, log_strip_ops};
use crate::game_state::{Entity, EntityType, GameState, PlayerState, SummonState};
use crate::viewport::{ViewportManager, cell_of, world_to_screen_spec};

verus! {

/// A frame under construction: rows of cells, top row first.
pub type Grid = Vec<Vec<MapDisplay>>;

/// The cells of a grid, row by row.
pub open spec fn cells(g: Grid) -> Seq<Seq<MapDisplay>> {
    g@.map_values(|r: Vec<MapDisplay>| r@)
}

/// `g` has `h` rows of `w` cells each.
pub open spec fn is_grid(g: Seq<Seq<MapDisplay>>, w: int, h: int) -> bool {
    g.len() == h && forall|y: int| 0 <= y < h ==> #[trigger] g[y].len() == w
}

/// `g` with cell `(x, y)` showing `d`; unchanged when the cell is not in `g`.
pub open spec fn put(g: Seq<Seq<MapDisplay>>, x: int, y: int, d: MapDisplay) -> Seq<Seq<MapDisplay>> {
    if 0 <= y < g.len() && 0 <= x < g[y].len() {
        g.update(y, g[y].update(x, d))
    } else {
        g
    }
}

/// `g` with `d` drawn at `at`, when there is a cell to draw it on.
pub open spec fn put_at(g: Seq<Seq<MapDisplay>>, at: Option<(int, int)>, d: MapDisplay) -> Seq<Seq<MapDisplay>> {
    match at {
        Some(c) => put(g, c.0, c.1, d),
        None => g,
    }
}

/// `g` with every placement of `ps` drawn in order, later ones on top.
pub open spec fn put_all(g: Seq<Seq<MapDisplay>>, ps: Seq<(Option<(int, int)>, MapDisplay)>) -> Seq<Seq<MapDisplay>>
    decreases ps.len(),
{
    if ps.len() == 0 {
        g
    } else {
        put_at(put_all(g, ps.drop_last()), ps.last().0, ps.last().1)
    }
}

/// A `w` x `h` grid of empty ground.
pub open spec fn empty_grid(w: int, h: int) -> Seq<Seq<MapDisplay>> {
    Seq::new(h as nat, |y: int| Seq::new(w as nat, |x: int| role_glyph(Role::Empty)))
}

/// The glyph of an entity, seen by the local player named `local_name`:
/// a summon is an ally exactly when its owner is the local player.
pub open spec fn entity_role(e: Entity, local_name: Seq<char>) -> Role {
    match e.entity_type {
        EntityType::Player(_) => Role::PlayerEnemy,
        EntityType::Summon(_) => {
            if e.owner matches Some(o) && o@ == local_name {
                Role::SummonAlly
            } else {
                Role::SummonEnemy
            }
        },
        EntityType::Projectile => Role::Projectile,
        EntityType::Effect => Role::Effect,
    }
}

/// Where each other player is drawn, and with which glyph.
pub open spec fn others_placements(gs: GameState, w: int, h: int) -> Seq<(Option<(int, int)>, MapDisplay)> {
    let cam = gs.local_player.position;
    gs.other_players@.map_values(
        |p: PlayerState| (world_to_screen_spec(p.position, cam, w, h), role_glyph(Role::PlayerEnemy)),
    )
}

/// Where each summon of the local player is drawn, and with which glyph.
pub open spec fn summons_placements(gs: GameState, w: int, h: int) -> Seq<(Option<(int, int)>, MapDisplay)> {
    let cam = gs.local_player.position;
    gs.local_player.summons@.map_values(
        |s: SummonState| (world_to_screen_spec(s.position, cam, w, h), role_glyph(Role::SummonAlly)),
    )
}

/// Where each other entity is drawn, and with which glyph.
pub open spec fn entities_placements(gs: GameState, w: int, h: int) -> Seq<(Option<(int, int)>, MapDisplay)> {
    let cam = gs.local_player.position;
    gs.entities@.map_values(
        |e: Entity|
            (world_to_screen_spec(e.position, cam, w, h), role_glyph(entity_role(e, gs.local_player.name@))),
    )
}

/// Where the local player is drawn: the centre of the map, if it has one.
pub open spec fn self_placement(gs: GameState, w: int, h: int) -> Seq<(Option<(int, int)>, MapDisplay)> {
    let cam = gs.local_player.position;
    seq![(world_to_screen_spec(cam, cam, w, h), role_glyph(Role::PlayerSelf))]
}

/// Where each thing of the snapshot is drawn on a `w` x `h` map centred
/// on the local player, and with which glyph, in drawing order: the local
/// player, the other players, the local summons, then the other entities.
pub open spec fn placements(gs: GameState, w: int, h: int) -> Seq<(Option<(int, int)>, MapDisplay)> {
    self_placement(gs, w, h) + others_placements(gs, w, h) + summons_placements(gs, w, h)
        + entities_placements(gs, w, h)
}

/// Whether `(x, y)` lies on the outer edge of a `w` x `h` map.
pub open spec fn on_border(x: int, y: int, w: int, h: int) -> bool {
    y == 0 || y == h - 1 || x == 0 || x == w - 1
}

/// The box-drawing glyph of the edge cell `(x, y)`.
pub open spec fn border_glyph(x: int, y: int, w: int, h: int) -> MapDisplay {
    let symbol = if y == 0 {
        if x == 0 { '┌' } else if x == w - 1 { '┐' } else { '─' }
    } else if y == h - 1 {
        if x == 0 { '└' } else if x == w - 1 { '┘' } else { '─' }
    } else {
        '│'
    };
    MapDisplay { symbol, color: Color::Yellow }
}

/// Whether a cell shows empty ground.
pub open spec fn is_ground(d: MapDisplay) -> bool {
    d.symbol == role_glyph(Role::Empty).symbol
}

/// `g` with a border drawn round its edge, on empty ground only.
pub open spec fn bordered(g: Seq<Seq<MapDisplay>>, w: int, h: int) -> Seq<Seq<MapDisplay>> {
    Seq::new(h as nat, |y: int| Seq::new(w as nat, |x: int|
        if on_border(x, y, w, h) && is_ground(g[y][x]) { border_glyph(x, y, w, h) } else { g[y][x] }))
}

/// `g` with the border drawn along the top and bottom rows up to column
/// `top`, and along the sides from row 1 up to row `side`.
spec fn border_stage(g: Seq<Seq<MapDisplay>>, w: int, h: int, top: int, side: int) -> Seq<Seq<MapDisplay>> {
    Seq::new(h as nat, |y: int| Seq::new(w as nat, |x: int|
        if is_ground(g[y][x]) && (((y == 0 || y == h - 1) && x < top) || ((x == 0 || x == w - 1) && 1 <= y < side)) {
            border_glyph(x, y, w, h)
        } else {
            g[y][x]
        }))
}

/// `g` with `d` at `(x, y)` if that cell shows empty ground.
pub open spec fn mark(g: Seq<Seq<MapDisplay>>, x: int, y: int, d: MapDisplay) -> Seq<Seq<MapDisplay>> {
    if is_ground(g[y][x]) { put(g, x, y, d) } else { g }
}

/// `g` with distance markers a quarter and three quarters of the way
/// across and down, through the centre, on empty ground only.
pub open spec fn with_markers(g: Seq<Seq<MapDisplay>>, w: int, h: int) -> Seq<Seq<MapDisplay>> {
    let d = role_glyph(Role::DistanceMarker);
    let g1 = mark(g, w / 2, h / 4, d);
    let g2 = mark(g1, w / 2, h * 3 / 4, d);
    let g3 = mark(g2, w / 4, h / 2, d);
    mark(g3, w * 3 / 4, h / 2, d)
}

/// `g` with the vision overlay: the border, and the distance markers
/// where the map is wider than 20 and taller than 10 cells.
pub open spec fn with_vision(g: Seq<Seq<MapDisplay>>, w: int, h: int) -> Seq<Seq<MapDisplay>> {
    if w > 0 && h > 0 {
        if w > 20 && h > 10 {
            with_markers(bordered(g, w, h), w, h)
        } else {
            bordered(g, w, h)
        }
    } else {
        g
    }
}

/// The lines of the placeholder shown before the first data arrives.
pub open spec fn waiting_lines() -> Seq<Seq<char>> {
    seq!["在地圖中心渲染等待訊息..."@, "Please ensure connected to game server"@, "and entered game mode"@]
}

/// `a - b`, or 0 where that is negative.
pub open spec fn sat_sub(a: int, b: int) -> int {
    if a >= b { a - b } else { 0 }
}

/// What the placeholder shows at cell `(x, y)` of a `w` x `h` map: the
/// lines centred one above another round the middle row, the first in
/// yellow and the rest in white, on blank rows; a green dot two rows below
/// the middle; empty ground elsewhere.
pub open spec fn waiting_cell(x: int, y: int, w: int, h: int) -> MapDisplay {
    let center_y = h / 2;
    let start_y = sat_sub(center_y, waiting_lines().len() as int / 2);
    if y == center_y + 2 && x == w / 2 {
        MapDisplay { symbol: '●', color: Color::Green }
    } else if start_y <= y < start_y + waiting_lines().len() {
        let i = y - start_y;
        let line = waiting_lines()[i];
        let start_x = sat_sub(w / 2, line.len() as int / 2);
        if start_x <= x < start_x + line.len() {
            MapDisplay { symbol: line[x - start_x], color: if i == 0 { Color::Yellow } else { Color::White } }
        } else {
            MapDisplay { symbol: ' ', color: Color::DarkGrey }
        }
    } else {
        role_glyph(Role::Empty)
    }
}

/// The placeholder frame on a `w` x `h` map.
pub open spec fn waiting_grid(w: int, h: int) -> Seq<Seq<MapDisplay>> {
    Seq::new(h as nat, |y: int| Seq::new(w as nat, |x: int| waiting_cell(x, y, w, h)))
}

/// The map of a snapshot: empty ground with everything placed on it, and
/// the vision overlay when `show_vision` is set.
pub open spec fn map_frame(gs: GameState, show_vision: bool, w: int, h: int) -> Seq<Seq<MapDisplay>> {
    let g = put_all(empty_grid(w, h), placements(gs, w, h));
    if show_vision {
        with_vision(g, w, h)
    } else {
        g
    }
}

/// The frame shown for a snapshot: its map, or the placeholder while the
/// snapshot holds no data yet.
pub open spec fn frame(gs: GameState, show_vision: bool, w: int, h: int) -> Seq<Seq<MapDisplay>> {
    if gs.has_data() {
        map_frame(gs, show_vision, w, h)
    } else {
        waiting_grid(w, h)
    }
}

/// A snapshot without data is shown as the placeholder, whatever the
/// vision setting: no map, no player glyph, no border.
pub proof fn lemma_placeholder_before_data(gs: GameState, show_vision: bool, w: int, h: int)
    requires
        !gs.has_data(),
    ensures
        frame(gs, show_vision, w, h) == waiting_grid(w, h),
{
}

proof fn lemma_put_all_grid(g: Seq<Seq<MapDisplay>>, ps: Seq<(Option<(int, int)>, MapDisplay)>, w: int, h: int)
    requires
        is_grid(g, w, h),
    ensures
        is_grid(put_all(g, ps), w, h),
    decreases ps.len(),
{
    if ps.len() > 0 {
        lemma_put_all_grid(g, ps.drop_last(), w, h);
    }
}

proof fn lemma_frame_height(gs: GameState, show_vision: bool, w: int, h: int)
    requires
        0 <= w,
        0 <= h,
    ensures
        frame(gs, show_vision, w, h).len() == h,
{
    lemma_put_all_grid(empty_grid(w, h), placements(gs, w, h), w, h);
}

proof fn lemma_grid_rows(g: Grid, w: int, h: int)
    requires
        is_grid(cells(g), w, h),
    ensures
        g@.len() == h,
        forall|y: int| 0 <= y < h ==> (#[trigger] g@[y])@.len() == w,
        forall|y: int| 0 <= y < h ==> cells(g)[y] == (#[trigger] g@[y])@,
{
    assert forall|y: int| 0 <= y < h implies (#[trigger] g@[y])@.len() == w by {
        assert(cells(g)[y] == g@[y]@);
    }
}

/// Sets one cell of `grid`.
fn set_cell(grid: &mut Grid, x: usize, y: usize, d: MapDisplay)
    requires
        y < old(grid)@.len(),
        x < old(grid)@[y as int]@.len(),
    ensures
        cells(*final(grid)) == put(cells(*old(grid)), x as int, y as int, d),
{
    let mut row: Vec<MapDisplay> = Vec::new();
    grid.set_and_swap(y, &mut row);
    row.set(x, d);
    grid.set_and_swap(y, &mut row);
    assert(cells(*grid) =~= put(cells(*old(grid)), x as int, y as int, d));
}

/// Draws `d` at `at` when there is such a cell.
fn set_at(grid: &mut Grid, at: Option<(usize, usize)>, d: MapDisplay)
    ensures
        cells(*final(grid)) == put_at(cells(*old(grid)), cell_of(at), d),
{
    if let Some((x, y)) = at {
        if y < grid.len() && x < grid[y].len() {
            set_cell(grid, x, y, d);
        }
    }
}

/// Map renderer: turns a snapshot into a frame.
pub struct MapRenderer;

impl MapRenderer {
    pub fn new() -> (r: MapRenderer) {
        MapRenderer
    }

    /// A `width` x `height` grid of empty ground.
    pub fn create_map_grid(&self, terminal_width: u16, terminal_height: u16) -> (r: Grid)
        ensures
            cells(r) == empty_grid(terminal_width as int, terminal_height as int),
    {
        let w = terminal_width as usize;
        let h = terminal_height as usize;
        let mut grid: Grid = Vec::new();
        let mut y: usize = 0;
        while y < h
            invariant
                y <= h,
                cells(grid) =~= empty_grid(w as int, y as int),
            decreases h - y,
        {
            let mut row: Vec<MapDisplay> = Vec::new();
            let mut x: usize = 0;
            while x < w
                invariant
                    x <= w,
                    row@ =~= Seq::new(x as nat, |i: int| role_glyph(Role::Empty)),
                decreases w - x,
            {
                row.push(MapDisplay::of(Role::Empty));
                x = x + 1;
            }
            let ghost before = cells(grid);
            grid.push(row);
            assert(cells(grid) =~= before.push(row@));
            y = y + 1;
        }
        grid
    }

    /// Draws the local player, the other players, the local summons and the
    /// other entities, each at its cell on a map centred on the local player.
    pub fn render_entities(
        &self,
        game_state: &GameState,
        grid: &mut Grid,
        viewport: &ViewportManager,
        terminal_width: u16,
        terminal_height: u16,
    )
        ensures
            cells(*final(grid)) == put_all(
                cells(*old(grid)),
                placements(*game_state, terminal_width as int, terminal_height as int),
            ),
    {
        let w = terminal_width as usize;
        let h = terminal_height as usize;
        let cam = game_state.local_player.position;
        let ghost g0 = cells(*grid);
        let ghost first = self_placement(*game_state, w as int, h as int);
        let ghost s_others = others_placements(*game_state, w as int, h as int);
        let ghost s_summons = summons_placements(*game_state, w as int, h as int);
        let ghost s_entities = entities_placements(*game_state, w as int, h as int);

        let at = viewport.world_to_screen(cam, cam, w, h);
        set_at(grid, at, MapDisplay::of(Role::PlayerSelf));
        assert(first.drop_last() =~= Seq::<(Option<(int, int)>, MapDisplay)>::empty());
        assert(first.last() == first[0]);
        assert(put_all(g0, first.drop_last()) == g0);
        assert(cells(*grid) == put_all(g0, first));

        let mut i: usize = 0;
        while i < game_state.other_players.len()
            invariant
                i <= game_state.other_players@.len(),
                w == terminal_width as usize,
                h == terminal_height as usize,
                cam == game_state.local_player.position,
                first == self_placement(*game_state, w as int, h as int),
                s_others == others_placements(*game_state, w as int, h as int),
                cells(*grid) == put_all(g0, first + s_others.take(i as int)),
            decreases game_state.other_players@.len() - i,
        {
            let at = viewport.world_to_screen(game_state.other_players[i].position, cam, w, h);
            set_at(grid, at, MapDisplay::of(Role::PlayerEnemy));
            assert((first + s_others.take(i + 1)).last() == s_others[i as int]);
            assert((first + s_others.take(i + 1)).drop_last() =~= first + s_others.take(i as int));
            i = i + 1;
        }
        assert(s_others.take(i as int) =~= s_others);
        let ghost p1 = first + s_others;

        let mut i: usize = 0;
        while i < game_state.local_player.summons.len()
            invariant
                i <= game_state.local_player.summons@.len(),
                w == terminal_width as usize,
                h == terminal_height as usize,
                cam == game_state.local_player.position,
                s_summons == summons_placements(*game_state, w as int, h as int),
                cells(*grid) == put_all(g0, p1 + s_summons.take(i as int)),
            decreases game_state.local_player.summons@.len() - i,
        {
            let at = viewport.world_to_screen(game_state.local_player.summons[i].position, cam, w, h);
            set_at(grid, at, MapDisplay::of(Role::SummonAlly));
            assert((p1 + s_summons.take(i + 1)).last() == s_summons[i as int]);
            assert((p1 + s_summons.take(i + 1)).drop_last() =~= p1 + s_summons.take(i as int));
            i = i + 1;
        }
        assert(s_summons.take(i as int) =~= s_summons);
        let ghost p2 = p1 + s_summons;

        let mut i: usize = 0;
        while i < game_state.entities.len()
            invariant
                i <= game_state.entities@.len(),
                w == terminal_width as usize,
                h == terminal_height as usize,
                cam == game_state.local_player.position,
                s_entities == entities_placements(*game_state, w as int, h as int),
                cells(*grid) == put_all(g0, p2 + s_entities.take(i as int)),
            decreases game_state.entities@.len() - i,
        {
            let e = &game_state.entities[i];
            let at = viewport.world_to_screen(e.position, cam, w, h);
            let role = Self::entity_role_of(e, &game_state.local_player.name);
            set_at(grid, at, MapDisplay::of(role));
            assert((p2 + s_entities.take(i + 1)).last() == s_entities[i as int]);
            assert((p2 + s_entities.take(i + 1)).drop_last() =~= p2 + s_entities.take(i as int));
            i = i + 1;
        }
        assert(s_entities.take(i as int) =~= s_entities);
    }

    /// Draws the vision overlay on `grid`.
    pub fn render_vision_range(&self, grid: &mut Grid, terminal_width: u16, terminal_height: u16)
        requires
            is_grid(cells(*old(grid)), terminal_width as int, terminal_height as int),
        ensures
            cells(*final(grid)) == with_vision(cells(*old(grid)), terminal_width as int, terminal_height as int),
            is_grid(cells(*final(grid)), terminal_width as int, terminal_height as int),
    {
        let w = terminal_width as usize;
        let h = terminal_height as usize;
        if w > 0 && h > 0 {
            self.draw_vision_border(grid, w, h);
            if w > 20 && h > 10 {
                self.add_distance_markers(grid, w, h);
            }
        }
    }

    /// Draws a box round the edge of `grid`, leaving every cell that
    /// already shows something other than empty ground as it is.
    pub fn draw_vision_border(&self, grid: &mut Grid, term_width: usize, term_height: usize)
        requires
            term_width > 0,
            term_height > 0,
            term_height <= 0xffff,
            is_grid(cells(*old(grid)), term_width as int, term_height as int),
        ensures
            cells(*final(grid)) == bordered(cells(*old(grid)), term_width as int, term_height as int),
            is_grid(cells(*final(grid)), term_width as int, term_height as int),
    {
        let w = term_width;
        let h = term_height;
        let ghost g0 = cells(*grid);
        assert(cells(*grid) =~~= border_stage(g0, w as int, h as int, 0, 1));
        let mut x: usize = 0;
        while x < w
            invariant
                x <= w,
                w == term_width,
                h == term_height,
                w > 0,
                h > 0,
                is_grid(g0, w as int, h as int),
                is_grid(cells(*grid), w as int, h as int),
                cells(*grid) == border_stage(g0, w as int, h as int, x as int, 1),
            decreases w - x,
        {
            let top = if x == 0 {
                MapDisplay::new('┌', Color::Yellow)
            } else if x == w - 1 {
                MapDisplay::new('┐', Color::Yellow)
            } else {
                MapDisplay::new('─', Color::Yellow)
            };
            proof { lemma_grid_rows(*grid, w as int, h as int); }
            if grid[0][x].is_empty() {
                set_cell(grid, x, 0, top);
            }
            let bottom = if x == 0 {
                MapDisplay::new('└', Color::Yellow)
            } else if x == w - 1 {
                MapDisplay::new('┘', Color::Yellow)
            } else {
                MapDisplay::new('─', Color::Yellow)
            };
            proof { lemma_grid_rows(*grid, w as int, h as int); }
            if grid[h - 1][x].is_empty() {
                set_cell(grid, x, h - 1, bottom);
            }
            assert(cells(*grid) =~= border_stage(g0, w as int, h as int, x + 1, 1)) by {
                assert forall|yy: int| 0 <= yy < h implies #[trigger] cells(*grid)[yy] =~= border_stage(
                    g0, w as int, h as int, x + 1, 1)[yy] by {}
            }
            x = x + 1;
        }
        let mut y: usize = 1;
        while y + 1 < h
            invariant
                1 <= y,
                y <= h,
                h <= 0xffff,
                is_grid(cells(*grid), w as int, h as int),
                w == term_width,
                h == term_height,
                w > 0,
                h > 0,
                is_grid(g0, w as int, h as int),
                cells(*grid) == border_stage(g0, w as int, h as int, w as int, y as int),
            decreases h - y,
        {
            let side = MapDisplay::new('│', Color::Yellow);
            proof { lemma_grid_rows(*grid, w as int, h as int); }
            if grid[y][0].is_empty() {
                set_cell(grid, 0, y, side);
            }
            proof { lemma_grid_rows(*grid, w as int, h as int); }
            if grid[y][w - 1].is_empty() {
                set_cell(grid, w - 1, y, side);
            }
            assert(cells(*grid) =~= border_stage(g0, w as int, h as int, w as int, y + 1)) by {
                assert forall|yy: int| 0 <= yy < h implies #[trigger] cells(*grid)[yy] =~= border_stage(
                    g0, w as int, h as int, w as int, y + 1)[yy] by {}
            }
            y = y + 1;
        }
        assert(cells(*grid) =~= bordered(g0, w as int, h as int)) by {
            assert forall|yy: int| 0 <= yy < h implies #[trigger] cells(*grid)[yy] =~= bordered(
                g0, w as int, h as int)[yy] by {}
        }
    }

    fn mark_cell(grid: &mut Grid, x: usize, y: usize, d: MapDisplay)
        requires
            y < old(grid)@.len(),
            x < old(grid)@[y as int]@.len(),
        ensures
            cells(*final(grid)) == mark(cells(*old(grid)), x as int, y as int, d),
    {
        if grid[y][x].is_empty() {
            set_cell(grid, x, y, d);
        }
    }

    /// Marks the points a quarter and three quarters of the way across and
    /// down the map, through its centre, where they show empty ground.
    pub fn add_distance_markers(&self, grid: &mut Grid, term_width: usize, term_height: usize)
        requires
            term_width > 0,
            term_height > 0,
            term_width <= 0xffff,
            term_height <= 0xffff,
            is_grid(cells(*old(grid)), term_width as int, term_height as int),
        ensures
            cells(*final(grid)) == with_markers(cells(*old(grid)), term_width as int, term_height as int),
            is_grid(cells(*final(grid)), term_width as int, term_height as int),
    {
        let w = term_width;
        let h = term_height;
        let center_x = w / 2;
        let center_y = h / 2;
        let quarter_x = w / 4;
        let three_quarter_x = w * 3 / 4;
        let quarter_y = h / 4;
        let three_quarter_y = h * 3 / 4;
        assert(w * 3 / 4 < w) by (nonlinear_arith) requires w > 0;
        assert(h * 3 / 4 < h) by (nonlinear_arith) requires h > 0;
        let marker = MapDisplay::of(Role::DistanceMarker);
        proof { lemma_grid_rows(*grid, w as int, h as int); }
        Self::mark_cell(grid, center_x, quarter_y, marker);
        assert(is_grid(cells(*grid), w as int, h as int));
        proof { lemma_grid_rows(*grid, w as int, h as int); }
        Self::mark_cell(grid, center_x, three_quarter_y, marker);
        assert(is_grid(cells(*grid), w as int, h as int));
        proof { lemma_grid_rows(*grid, w as int, h as int); }
        Self::mark_cell(grid, quarter_x, center_y, marker);
        assert(is_grid(cells(*grid), w as int, h as int));
        proof { lemma_grid_rows(*grid, w as int, h as int); }
        Self::mark_cell(grid, three_quarter_x, center_y, marker);
    }

    fn waiting_line(i: usize) -> (r: &'static str)
        requires
            i < waiting_lines().len(),
        ensures
            r@ == waiting_lines()[i as int],
    {
        if i == 0 {
            "在地圖中心渲染等待訊息..."
        } else if i == 1 {
            "Please ensure connected to game server"
        } else {
            "and entered game mode"
        }
    }

    fn waiting_cell_at(x: usize, y: usize, w: usize, h: usize) -> (r: MapDisplay)
        requires
            x < w,
            y < h,
            h <= 0xffff,
        ensures
            r == waiting_cell(x as int, y as int, w as int, h as int),
    {
        let center_y = h / 2;
        let start_y = if center_y >= 1 { center_y - 1 } else { 0 };
        if y == center_y + 2 && x == w / 2 {
            MapDisplay::new('●', Color::Green)
        } else if start_y <= y && y < start_y + 3 {
            let i = y - start_y;
            let line = Self::waiting_line(i);
            let len = line.unicode_len();
            let start_x = if w / 2 >= len / 2 { w / 2 - len / 2 } else { 0 };
            if start_x <= x && x - start_x < len {
                let color = if i == 0 { Color::Yellow } else { Color::White };
                MapDisplay::new(line.get_char(x - start_x), color)
            } else {
                MapDisplay::new(' ', Color::DarkGrey)
            }
        } else {
            MapDisplay::of(Role::Empty)
        }
    }

    /// Replaces the empty map `grid` with the placeholder shown before
    /// the first data arrives.
    pub fn render_waiting_message(&self, grid: &mut Grid, width: usize, height: usize)
        requires
            cells(*old(grid)) == empty_grid(width as int, height as int),
            height <= 0xffff,
        ensures
            cells(*final(grid)) == waiting_grid(width as int, height as int),
    {
        let w = width;
        let h = height;
        let mut out: Grid = Vec::new();
        let mut y: usize = 0;
        while y < h
            invariant
                y <= h,
                h <= 0xffff,
                cells(out) =~= waiting_grid(w as int, h as int).take(y as int),
            decreases h - y,
        {
            let mut row: Vec<MapDisplay> = Vec::new();
            let mut x: usize = 0;
            while x < w
                invariant
                    x <= w,
                    y < h,
                    h <= 0xffff,
                    row@ =~= Seq::new(x as nat, |i: int| waiting_cell(i, y as int, w as int, h as int)),
                decreases w - x,
            {
                row.push(Self::waiting_cell_at(x, y, w, h));
                x = x + 1;
            }
            let ghost before = cells(out);
            out.push(row);
            assert(cells(out) =~= before.push(row@));
            assert(waiting_grid(w as int, h as int).take(y + 1) =~= waiting_grid(w as int, h as int).take(
                y as int,
            ).push(row@));
            y = y + 1;
        }
        assert(waiting_grid(w as int, h as int).take(h as int) =~= waiting_grid(w as int, h as int));
        *grid = out;
    }

    /// The frame for `game_state` on a `terminal_width` x
    /// `terminal_height` map.
    pub fn frame_grid(
        &self,
        game_state: &GameState,
        viewport: &ViewportManager,
        show_vision: bool,
        terminal_width: u16,
        terminal_height: u16,
    ) -> (r: Grid)
        ensures
            cells(r) == frame(*game_state, show_vision, terminal_width as int, terminal_height as int),
    {
        let w = terminal_width as usize;
        let h = terminal_height as usize;
        let mut grid = self.create_map_grid(terminal_width, terminal_height);
        if !game_state.has_valid_data() {
            self.render_waiting_message(&mut grid, w, h);
        } else {
            self.render_entities(game_state, &mut grid, viewport, terminal_width, terminal_height);
            proof {
                lemma_put_all_grid(
                    empty_grid(w as int, h as int),
                    placements(*game_state, w as int, h as int),
                    w as int,
                    h as int,
                );
            }
            if show_vision {
                self.render_vision_range(&mut grid, terminal_width, terminal_height);
            }
        }
        grid
    }

    /// The commands that paint `grid`: for each row, move to its start,
    /// print each cell in its colour, and clear the rest of the line.
    pub fn print_map(&self, grid: &Grid) -> (r: Vec<PaintOp>)
        requires
            grid@.len() <= 0x10000,
        ensures
            r@ == map_ops(cells(*grid)),
    {
        let ghost g = cells(*grid);
        let mut ops: Vec<PaintOp> = Vec::new();
        let mut y: usize = 0;
        while y < grid.len()
            invariant
                y <= grid@.len(),
                grid@.len() <= 0x10000,
                g == cells(*grid),
                ops@ == rows_ops(g, y as int),
            decreases grid@.len() - y,
        {
            ops.push(PaintOp::MoveTo(0, y as u16));
            let ghost head = ops@;
            let row = &grid[y];
            assert(g[y as int] == row@);
            let mut x: usize = 0;
            assert(row@.take(0) =~= Seq::<MapDisplay>::empty());
            while x < row.len()
                invariant
                    x <= row@.len(),
                    ops@ == head + row_ops(row@.take(x as int)),
                decreases row@.len() - x,
            {
                let d = row[x];
                ops.push(PaintOp::SetColor(d.color));
                ops.push(PaintOp::PrintChar(d.symbol));
                assert(row@.take(x + 1).drop_last() =~= row@.take(x as int));
                assert(ops@ =~= head + row_ops(row@.take(x + 1)));
                x = x + 1;
            }
            assert(row@.take(x as int) =~= row@);
            ops.push(PaintOp::ClearUntilNewLine);
            assert(ops@ =~= rows_ops(g, y + 1));
            y = y + 1;
        }
        ops.push(PaintOp::ResetColor);
        ops
    }

    /// The commands that paint the log strip: the three rows under a map
    /// `terminal_height` rows tall.
    pub fn print_logs(&self, logger: &TerminalLogger, terminal_width: u16, terminal_height: u16) -> (r: Vec<PaintOp>)
        requires
            terminal_height <= 0xffff - 3,
        ensures
            r@ == log_strip_ops(logger.entries_view(), terminal_width as int, terminal_height + 3, 3),
    {
        logger.render_logs(terminal_width, terminal_height + 3, 3)
    }

    /// The commands that paint one whole screen: from the top-left corner,
    /// the frame for `game_state`, then the log strip below it.
    pub fn render(
        &self,
        game_state: &GameState,
        viewport: &ViewportManager,
        show_vision: bool,
        terminal_width: u16,
        terminal_height: u16,
        logger: &TerminalLogger,
    ) -> (r: Vec<PaintOp>)
        requires
            terminal_height <= 0xffff - 3,
        ensures
            r@ == seq![PaintOp::MoveTo(0, 0)]
                + map_ops(frame(*game_state, show_vision, terminal_width as int, terminal_height as int))
                + log_strip_ops(logger.entries_view(), terminal_width as int, terminal_height + 3, 3),
    {
        let grid = self.frame_grid(game_state, viewport, show_vision, terminal_width, terminal_height);
        proof {
            lemma_frame_height(*game_state, show_vision, terminal_width as int, terminal_height as int);
        }
        let mut ops: Vec<PaintOp> = Vec::new();
        ops.push(PaintOp::MoveTo(0, 0));
        let mut map = self.print_map(&grid);
        ops.append(&mut map);
        let mut logs = self.print_logs(logger, terminal_width, terminal_height);
        ops.append(&mut logs);
        ops
    }

    fn entity_role_of(e: &Entity, local_name: &String) -> (r: Role)
        ensures
            r == entity_role(*e, local_name@),
    {
        match &e.entity_type {
            EntityType::Player(_) => Role::PlayerEnemy,
            EntityType::Summon(_) => {
                match &e.owner {
                    Some(o) => {
                        if *o == *local_name {
                            Role::SummonAlly
                        } else {
                            Role::SummonEnemy
                        }
                    },
                    None => Role::SummonEnemy,
                }
            },
            EntityType::Projectile => Role::Projectile,
            EntityType::Effect => Role::Effect,
        }
    }
}

} // verus!
