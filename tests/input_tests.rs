use omobab_terminal::game_state::{GameState, ItemState};
use omobab_terminal::input::{
    InputEvent, InputHandler, KeyCode, KeyEvent, KeyModifiers, MouseButton, MouseEvent, MouseEventKind, UserInput,
};
use omobab_terminal::viewport::{ViewportManager, WorldPos};

fn no_mods() -> KeyModifiers {
    KeyModifiers { shift: false, control: false, alt: false }
}

fn key(c: char) -> KeyEvent {
    KeyEvent { code: KeyCode::Char(c), modifiers: no_mods() }
}

fn click(button: MouseButton, column: u16, row: u16, modifiers: KeyModifiers) -> MouseEvent {
    MouseEvent { kind: MouseEventKind::Down(button), column, row, modifiers }
}

fn saika() -> GameState {
    GameState::new("alice".to_string(), "saika_magoichi".to_string())
}

#[test]
fn left_click_moves_to_clicked_world_position() {
    let gs = saika();
    let vp = ViewportManager::new(40, 40);
    let mut h = InputHandler::new();
    let r = h.handle_mouse_event(click(MouseButton::Left, 50, 10, no_mods()), &gs, &vp, 80, 24);
    assert!(matches!(r, UserInput::Move(p) if p == WorldPos::new(100, -20)));
}

#[test]
fn modified_left_clicks_and_right_click() {
    let gs = saika();
    let vp = ViewportManager::new(40, 40);
    let mut h = InputHandler::new();
    let shift = KeyModifiers { shift: true, control: false, alt: false };
    let ctrl = KeyModifiers { shift: false, control: true, alt: false };
    let r = h.handle_mouse_event(click(MouseButton::Left, 40, 12, shift), &gs, &vp, 80, 24);
    assert!(matches!(r, UserInput::MoveAttack(p) if p == WorldPos::new(0, 0)));
    let r = h.handle_mouse_event(click(MouseButton::Left, 41, 12, ctrl), &gs, &vp, 80, 24);
    assert!(matches!(r, UserInput::ForceAttack(p) if p == WorldPos::new(10, 0)));
    let r = h.handle_mouse_event(click(MouseButton::Right, 40, 13, no_mods()), &gs, &vp, 80, 24);
    assert!(matches!(r, UserInput::Attack(p) if p == WorldPos::new(0, 10)));
    let r = h.handle_mouse_event(
        MouseEvent { kind: MouseEventKind::Moved, column: 1, row: 1, modifiers: no_mods() },
        &gs,
        &vp,
        80,
        24,
    );
    assert!(matches!(r, UserInput::Continue));
}

#[test]
fn ability_then_left_click_casts_once() {
    let gs = saika();
    let vp = ViewportManager::new(40, 40);
    let mut h = InputHandler::new();
    let r = h.handle_key_event(key('w'), &gs);
    assert!(matches!(r, UserInput::Continue));
    assert_eq!(h.selected_ability.as_deref(), Some("sniper_mode"));
    let r = h.handle_mouse_event(click(MouseButton::Left, 42, 12, no_mods()), &gs, &vp, 80, 24);
    match r {
        UserInput::CastAbility(id, p) => {
            assert_eq!(id, "sniper_mode");
            assert_eq!(p, WorldPos::new(20, 0));
        }
        _ => panic!("expected a cast"),
    }
    assert!(h.selected_ability.is_none());
    let r = h.handle_mouse_event(click(MouseButton::Left, 42, 12, no_mods()), &gs, &vp, 80, 24);
    assert!(matches!(r, UserInput::Move(_)));
}

#[test]
fn ability_then_right_click_cancels() {
    let gs = saika();
    let vp = ViewportManager::new(40, 40);
    let mut h = InputHandler::new();
    h.handle_key_event(key('R'), &gs);
    assert_eq!(h.selected_ability.as_deref(), Some("rain_iron_cannon"));
    let r = h.handle_mouse_event(click(MouseButton::Right, 3, 3, no_mods()), &gs, &vp, 80, 24);
    assert!(matches!(r, UserInput::Cancel));
    assert!(h.selected_ability.is_none());
    let r = h.handle_mouse_event(click(MouseButton::Right, 40, 12, no_mods()), &gs, &vp, 80, 24);
    assert!(matches!(r, UserInput::Attack(_)));
}

#[test]
fn hotkeys_follow_the_hero() {
    let gs = GameState::new("bob".to_string(), "date_masamune".to_string());
    let mut h = InputHandler::new();
    h.handle_key_event(key('t'), &gs);
    assert_eq!(h.selected_ability.as_deref(), Some("matchlock_gun"));
    h.handle_key_event(key('E'), &gs);
    assert_eq!(h.selected_ability.as_deref(), Some("fire_dash"));

    let unknown = GameState::new("eve".to_string(), "unknown_hero".to_string());
    let mut h = InputHandler::new();
    let r = h.handle_key_event(key('w'), &unknown);
    assert!(matches!(r, UserInput::Continue));
    assert!(h.selected_ability.is_none());
}

#[test]
fn ability_on_cooldown_is_not_selected() {
    let mut gs = saika();
    gs.local_player.abilities[0].cooldown_remaining = 1500;
    let mut h = InputHandler::new();
    h.handle_key_event(key('w'), &gs);
    assert!(h.selected_ability.is_none());
    h.handle_key_event(key('e'), &gs);
    assert_eq!(h.selected_ability.as_deref(), Some("saika_reinforcements"));
}

#[test]
fn item_hotkey_uses_item() {
    let gs = saika();
    let mut h = InputHandler::new();
    let r = h.handle_key_event(key('2'), &gs);
    match r {
        UserInput::UseItem(id, pos) => {
            assert_eq!(id, "mana_potion");
            assert!(pos.is_none());
        }
        _ => panic!("expected an item use"),
    }
    let r = h.handle_key_event(key('9'), &gs);
    assert!(matches!(r, UserInput::Continue));
}

#[test]
fn item_without_charges_is_not_used() {
    let mut gs = saika();
    gs.local_player.items[0].charges = 0;
    let mut h = InputHandler::new();
    let r = h.handle_key_event(key('1'), &gs);
    assert!(matches!(r, UserInput::Continue));
    assert!(h.selected_ability.is_none());
}

#[test]
fn item_on_cooldown_is_not_used() {
    let mut gs = saika();
    gs.local_player.items[0].cooldown_remaining = 3000;
    let mut h = InputHandler::new();
    let r = h.handle_key_event(key('1'), &gs);
    assert!(matches!(r, UserInput::Continue));
    gs.update_cooldowns(3000);
    let r = h.handle_key_event(key('1'), &gs);
    assert!(matches!(r, UserInput::UseItem(ref id, None) if id == "health_potion"));
}

#[test]
fn first_usable_item_of_a_slot_is_used() {
    let mut gs = saika();
    gs.local_player.items[0].is_available = false;
    gs.local_player.items.push(ItemState {
        item_id: "elixir".to_string(),
        name: "Elixir".to_string(),
        slot: 1,
        charges: 1,
        cooldown_remaining: 0,
        is_available: true,
    });
    let mut h = InputHandler::new();
    let r = h.handle_key_event(key('1'), &gs);
    assert!(matches!(r, UserInput::UseItem(ref id, None) if id == "elixir"));
}

#[test]
fn quit_key_without_selection_quits() {
    let gs = saika();
    let vp = ViewportManager::new(40, 40);
    let mut h = InputHandler::new();
    assert!(!h.is_exit_requested());
    let r = h.handle_key_event(key('q'), &gs);
    assert!(matches!(r, UserInput::Quit));
    assert!(h.is_exit_requested());
    let r = h.handle_input(None, &gs, &vp, 80, 24);
    assert!(matches!(r, UserInput::Quit));
    let r = h.handle_input(Some(InputEvent::Key(key('w'))), &gs, &vp, 80, 24);
    assert!(matches!(r, UserInput::Quit));
}

#[test]
fn quit_key_with_selection_cancels() {
    let gs = saika();
    let mut h = InputHandler::new();
    h.handle_key_event(key('w'), &gs);
    assert_eq!(h.get_esc_status(), "ESC: cancel the selected ability");
    let r = h.handle_key_event(KeyEvent { code: KeyCode::Esc, modifiers: no_mods() }, &gs);
    assert!(matches!(r, UserInput::Cancel));
    assert!(!h.is_exit_requested());
    assert!(h.selected_ability.is_none());
    assert_eq!(h.get_esc_status(), "ESC: quit");
    let r = h.handle_key_event(KeyEvent { code: KeyCode::Esc, modifiers: no_mods() }, &gs);
    assert!(matches!(r, UserInput::Quit));
    assert!(h.is_exit_requested());
}

#[test]
fn no_event_continues() {
    let gs = saika();
    let vp = ViewportManager::new(40, 40);
    let mut h = InputHandler::new();
    assert!(matches!(h.handle_input(None, &gs, &vp, 80, 24), UserInput::Continue));
    assert!(matches!(h.handle_input(Some(InputEvent::Other), &gs, &vp, 80, 24), UserInput::Continue));
    let r = h.handle_input(Some(InputEvent::Key(key('x'))), &gs, &vp, 80, 24);
    assert!(matches!(r, UserInput::Continue));
}

#[test]
fn request_exit_from_elsewhere_quits() {
    let gs = saika();
    let vp = ViewportManager::new(40, 40);
    let mut h = InputHandler::new();
    h.request_exit();
    assert!(matches!(h.handle_input(None, &gs, &vp, 80, 24), UserInput::Quit));
}

#[test]
fn starting_reader_twice_spawns_once() {
    let mut h = InputHandler::new();
    assert!(h.start_event_thread());
    assert!(!h.start_event_thread());
    assert!(h.stop_event_thread());
    assert!(!h.stop_event_thread());
    assert!(h.start_event_thread());
}

#[test]
fn exit_request_keeps_the_selection() {
    let gs = saika();
    let vp = ViewportManager::new(40, 40);
    let mut h = InputHandler::new();
    h.handle_key_event(key('w'), &gs);
    h.request_exit();
    let r = h.handle_input(Some(InputEvent::Key(key('e'))), &gs, &vp, 80, 24);
    assert!(matches!(r, UserInput::Quit));
    assert_eq!(h.selected_ability.as_deref(), Some("sniper_mode"));
}
