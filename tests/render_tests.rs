use omobab_terminal::display::{Color, MapDisplay, Role};
use omobab_terminal::game_state::{Entity, EntityType, GameState, Health, PlayerState, SummonState};
use omobab_terminal::paint::PaintOp;
use omobab_terminal::renderer::{Grid, MapRenderer};
use omobab_terminal::terminal_logger::TerminalLogger;
use omobab_terminal::view::TerminalView;
use omobab_terminal::viewport::{ViewportManager, WorldPos};

fn row_text(g: &Grid, y: usize) -> String {
    g[y].iter().map(|d| d.symbol).collect()
}

fn full() -> Health {
    Health { current: 100, max: 100 }
}

fn player_at(x: i32, y: i32) -> GameState {
    let mut gs = GameState::new("alice".to_string(), "saika_magoichi".to_string());
    gs.local_player.position = WorldPos::new(x, y);
    gs
}

#[test]
fn fresh_snapshot_shows_waiting_placeholder() {
    let gs = GameState::new("alice".to_string(), "saika_magoichi".to_string());
    assert!(!gs.has_valid_data());
    let r = MapRenderer::new();
    let vp = ViewportManager::new(40, 40);
    let g = r.frame_grid(&gs, &vp, true, 80, 21);
    assert_eq!(g.len(), 21);
    assert!(g.iter().all(|row| row.len() == 80));
    // Middle row 10: lines on rows 9, 10, 11 and the dot on row 12.
    assert_eq!(row_text(&g, 9).trim(), "在地圖中心渲染等待訊息...");
    assert_eq!(row_text(&g, 10).trim(), "Please ensure connected to game server");
    assert_eq!(row_text(&g, 11).trim(), "and entered game mode");
    assert_eq!(g[12][40], MapDisplay::new('●', Color::Green));
    // 14 characters centred on column 40 start at column 33.
    assert_eq!(g[9][33], MapDisplay::new('在', Color::Yellow));
    assert_eq!(g[9][46], MapDisplay::new('.', Color::Yellow));
    assert_eq!(g[9][47], MapDisplay::new(' ', Color::DarkGrey));
    assert_eq!(g[10][21], MapDisplay::new('P', Color::White));
    assert_eq!(g[9][0], MapDisplay::new(' ', Color::DarkGrey));
    assert_eq!(g[0][0], MapDisplay::of(Role::Empty));
    assert!(g.iter().all(|row| row.iter().all(|d| d.symbol != '@' && d.symbol != '┌')));
}

#[test]
fn snapshot_with_data_shows_the_map() {
    let gs = player_at(5, 0);
    assert!(gs.has_valid_data());
    let r = MapRenderer::new();
    let vp = ViewportManager::new(40, 40);
    let g = r.frame_grid(&gs, &vp, false, 80, 21);
    assert_eq!(g[10][40], MapDisplay::of(Role::PlayerSelf));
    let others = g.iter().flatten().filter(|d| **d != MapDisplay::of(Role::Empty)).count();
    assert_eq!(others, 1);
}

#[test]
fn entities_get_their_glyphs() {
    let mut gs = player_at(0, 0);
    gs.other_players.push(PlayerState {
        name: "bob".to_string(),
        hero_type: "date_masamune".to_string(),
        position: WorldPos::new(30, 0),
        health: full(),
    });
    gs.local_player.summons.push(SummonState {
        id: 1,
        unit_type: "gunner".to_string(),
        position: WorldPos::new(0, 20),
        health: full(),
    });
    let entity = |id: u32, t: EntityType, x: i32, owner: Option<&str>| Entity {
        id,
        entity_type: t,
        position: WorldPos::new(x, -30),
        health: full(),
        owner: owner.map(|o| o.to_string()),
    };
    gs.entities.push(entity(2, EntityType::Summon("gunner".to_string()), -20, Some("alice")));
    gs.entities.push(entity(3, EntityType::Summon("gunner".to_string()), -10, Some("bob")));
    gs.entities.push(entity(4, EntityType::Projectile, 0, None));
    gs.entities.push(entity(5, EntityType::Effect, 10, None));
    gs.entities.push(entity(6, EntityType::Player("carol".to_string()), 20, None));
    gs.entities.push(entity(7, EntityType::Projectile, 5000, None));
    let r = MapRenderer::new();
    let vp = ViewportManager::new(40, 40);
    let g = r.frame_grid(&gs, &vp, false, 40, 20);
    assert_eq!(g[10][20], MapDisplay::of(Role::PlayerSelf));
    assert_eq!(g[10][23], MapDisplay::of(Role::PlayerEnemy));
    assert_eq!(g[12][20], MapDisplay::of(Role::SummonAlly));
    assert_eq!(g[7][18], MapDisplay::of(Role::SummonAlly));
    assert_eq!(g[7][19], MapDisplay::of(Role::SummonEnemy));
    assert_eq!(g[7][20], MapDisplay::of(Role::Projectile));
    assert_eq!(g[7][21], MapDisplay::of(Role::Effect));
    assert_eq!(g[7][22], MapDisplay::of(Role::PlayerEnemy));
}

#[test]
fn later_entities_draw_over_earlier_ones() {
    let mut gs = player_at(0, 0);
    gs.entities.push(Entity {
        id: 9,
        entity_type: EntityType::Effect,
        position: WorldPos::new(0, 0),
        health: full(),
        owner: None,
    });
    let r = MapRenderer::new();
    let vp = ViewportManager::new(40, 40);
    let g = r.frame_grid(&gs, &vp, false, 40, 20);
    assert_eq!(g[10][20], MapDisplay::of(Role::Effect));
}

#[test]
fn vision_border_keeps_placed_cells() {
    let mut gs = player_at(0, 0);
    // On the top-left corner cell.
    gs.other_players.push(PlayerState {
        name: "bob".to_string(),
        hero_type: "x".to_string(),
        position: WorldPos::new(-200, -100),
        health: full(),
    });
    let r = MapRenderer::new();
    let vp = ViewportManager::new(40, 40);
    let g = r.frame_grid(&gs, &vp, true, 40, 20);
    assert_eq!(g[0][0], MapDisplay::of(Role::PlayerEnemy));
    assert_eq!(g[0][39].symbol, '┐');
    assert_eq!(g[19][0].symbol, '└');
    assert_eq!(g[19][39].symbol, '┘');
    assert_eq!(g[0][5], MapDisplay::new('─', Color::Yellow));
    assert_eq!(g[19][5].symbol, '─');
    assert_eq!(g[5][0], MapDisplay::new('│', Color::Yellow));
    assert_eq!(g[5][39].symbol, '│');
    // Distance markers on a map wider than 20 and taller than 10.
    let marker = MapDisplay::of(Role::DistanceMarker);
    assert_eq!(g[5][20], marker);
    assert_eq!(g[15][20], marker);
    assert_eq!(g[10][10], marker);
    assert_eq!(g[10][30], marker);
    assert_eq!(g[10][20], MapDisplay::of(Role::PlayerSelf));
}

#[test]
fn small_map_has_border_but_no_markers() {
    let gs = player_at(1, 1);
    let r = MapRenderer::new();
    let vp = ViewportManager::new(40, 40);
    let g = r.frame_grid(&gs, &vp, true, 20, 10);
    assert_eq!(g[0][0].symbol, '┌');
    assert!(g.iter().flatten().all(|d| d.symbol != '+'));
    let one_row = r.frame_grid(&gs, &vp, true, 3, 1);
    assert_eq!(row_text(&one_row, 0), "┌@┐");
}

#[test]
fn print_map_paints_rows_and_clears_line_ends() {
    let r = MapRenderer::new();
    let g: Grid = vec![
        vec![MapDisplay::of(Role::Empty), MapDisplay::of(Role::PlayerSelf)],
        vec![MapDisplay::of(Role::Wall), MapDisplay::of(Role::Water)],
    ];
    let ops = r.print_map(&g);
    assert_eq!(
        ops,
        vec![
            PaintOp::MoveTo(0, 0),
            PaintOp::SetColor(Color::DarkGrey),
            PaintOp::PrintChar('.'),
            PaintOp::SetColor(Color::Yellow),
            PaintOp::PrintChar('@'),
            PaintOp::ClearUntilNewLine,
            PaintOp::MoveTo(0, 1),
            PaintOp::SetColor(Color::Grey),
            PaintOp::PrintChar('#'),
            PaintOp::SetColor(Color::Blue),
            PaintOp::PrintChar('~'),
            PaintOp::ClearUntilNewLine,
            PaintOp::ResetColor,
        ]
    );
}

#[test]
fn full_render_starts_at_origin_and_ends_with_log_strip() {
    let gs = player_at(3, 3);
    let mut logger = TerminalLogger::new(10);
    logger.log("INFO", "hi".to_string());
    let view = TerminalView::new(20, false, 4, 5);
    assert_eq!(view.terminal_height, 2);
    let ops = view.render(&gs, &logger);
    assert_eq!(ops[0], PaintOp::MoveTo(0, 0));
    assert_eq!(ops[1], PaintOp::MoveTo(0, 0));
    assert_eq!(ops.last(), Some(&PaintOp::ResetColor));
    let n_chars = ops.iter().filter(|o| matches!(o, PaintOp::PrintChar(_))).count();
    // 8 map cells, "[INFO]", and " ..." since "hi" does not fit 4 columns.
    assert_eq!(n_chars, 8 + 6 + 4);
    assert!(ops.contains(&PaintOp::MoveTo(0, 2)));
    assert!(ops.contains(&PaintOp::MoveTo(0, 4)));
}
