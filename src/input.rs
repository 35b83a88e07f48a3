//! Turning raw key and mouse events into player commands.
use vstd::prelude::*;
use crate::game_state::{GameState, ItemState, hero_abilities, hero_ability_ids};
use crate::viewport::{ViewportManager, WorldPos, world_axis};

verus! {

/// A key of the keyboard.
#[derive(Clone, Copy, Debug, PartialEq, Eq, Structural)]
pub enum KeyCode {
    Char(char),
    Esc,
    Enter,
    Backspace,
    Tab,
    Other,
}

/// Modifier keys held during an event.
#[derive(Clone, Copy, Debug, PartialEq, Eq, Structural)]
pub struct KeyModifiers {
    pub shift: bool,
    pub control: bool,
    pub alt: bool,
}

/// A key press.
#[derive(Clone, Copy, Debug, PartialEq, Eq, Structural)]
pub struct KeyEvent {
    pub code: KeyCode,
    pub modifiers: KeyModifiers,
}

#[derive(Clone, Copy, Debug, PartialEq, Eq, Structural)]
pub enum MouseButton {
    Left,
    Right,
    Middle,
}

#[derive(Clone, Copy, Debug, PartialEq, Eq, Structural)]
pub enum MouseEventKind {
    Down(MouseButton),
    Up(MouseButton),
    Drag(MouseButton),
    Moved,
    ScrollDown,
    ScrollUp,
}

/// A mouse event, at a terminal cell counted from the top-left corner.
#[derive(Clone, Copy, Debug, PartialEq, Eq, Structural)]
pub struct MouseEvent {
    pub kind: MouseEventKind,
    pub column: u16,
    pub row: u16,
    pub modifiers: KeyModifiers,
}

/// A raw terminal event.
#[derive(Clone, Copy, Debug, PartialEq, Eq, Structural)]
pub enum InputEvent {
    Key(KeyEvent),
    Mouse(MouseEvent),
    /// Anything else the terminal reports (focus, resize, paste).
    Other,
}

/// A player command.
#[derive(Clone, Debug)]
pub enum UserInput {
    /// Leave the view.
    Quit,
    /// Move to a world position.
    Move(WorldPos),
    /// Attack at a world position.
    Attack(WorldPos),
    /// Move there, attacking what is met on the way.
    MoveAttack(WorldPos),
    /// Attack there, allies included.
    ForceAttack(WorldPos),
    /// Cast an ability, by id, at a world position.
    CastAbility(String, WorldPos),
    /// Use an item, by id, optionally at a world position.
    UseItem(String, Option<WorldPos>),
    /// Drop the ability being aimed.
    Cancel,
    /// Nothing to do this frame.
    Continue,
}

/// A player command, with ids as text.
pub enum Command {
    Quit,
    Move(WorldPos),
    Attack(WorldPos),
    MoveAttack(WorldPos),
    ForceAttack(WorldPos),
    CastAbility(Seq<char>, WorldPos),
    UseItem(Seq<char>, Option<WorldPos>),
    Cancel,
    Continue,
}

impl View for UserInput {
    type V = Command;

    open spec fn view(&self) -> Command {
        match self {
            UserInput::Quit => Command::Quit,
            UserInput::Move(p) => Command::Move(*p),
            UserInput::Attack(p) => Command::Attack(*p),
            UserInput::MoveAttack(p) => Command::MoveAttack(*p),
            UserInput::ForceAttack(p) => Command::ForceAttack(*p),
            UserInput::CastAbility(id, p) => Command::CastAbility(id@, *p),
            UserInput::UseItem(id, p) => Command::UseItem(id@, *p),
            UserInput::Cancel => Command::Cancel,
            UserInput::Continue => Command::Continue,
        }
    }
}

/// The ability slot bound to a key: W, E, R and T, either case.
pub open spec fn ability_slot(c: char) -> Option<int> {
    if c == 'w' || c == 'W' {
        Some(0)
    } else if c == 'e' || c == 'E' {
        Some(1)
    } else if c == 'r' || c == 'R' {
        Some(2)
    } else if c == 't' || c == 'T' {
        Some(3)
    } else {
        None
    }
}

/// The item slot bound to a key: the digits 1 to 9.
pub open spec fn item_slot(c: char) -> Option<int> {
    if c == '1' {
        Some(1)
    } else if c == '2' {
        Some(2)
    } else if c == '3' {
        Some(3)
    } else if c == '4' {
        Some(4)
    } else if c == '5' {
        Some(5)
    } else if c == '6' {
        Some(6)
    } else if c == '7' {
        Some(7)
    } else if c == '8' {
        Some(8)
    } else if c == '9' {
        Some(9)
    } else {
        None
    }
}

/// Whether a key asks to leave, or to drop the ability being aimed.
pub open spec fn is_quit_key(code: KeyCode) -> bool {
    code == KeyCode::Esc || code == KeyCode::Char('q') || code == KeyCode::Char('Q')
}

/// Whether ability `id` is off cooldown in `gs`.
pub open spec fn ability_ready(gs: GameState, id: Seq<char>) -> bool {
    forall|i: int|
        0 <= i < gs.local_player.abilities@.len() && (#[trigger] gs.local_player.abilities@[i]).ability_id@ == id
            ==> gs.local_player.abilities@[i].cooldown_remaining == 0
}

/// The ability that the hotkey of `slot` selects in `gs`: the hero's
/// ability in that slot, if it has one and it is off cooldown.
pub open spec fn hotkey_ability(gs: GameState, slot: int) -> Option<Seq<char>> {
    let ids = hero_abilities(gs.local_player.hero_type@);
    if 0 <= slot < ids.len() && ability_ready(gs, ids[slot]) {
        Some(ids[slot])
    } else {
        None
    }
}

/// Whether `item` can be used from the hotkey of `slot`: it sits in that
/// slot, is available, has charges left and is off cooldown.
pub open spec fn item_usable(item: ItemState, slot: int) -> bool {
    item.slot == slot && item.is_available && item.charges > 0 && item.cooldown_remaining == 0
}

/// The first item of `gs` usable from the hotkey of `slot`.
pub open spec fn hotkey_item(gs: GameState, slot: int) -> Option<Seq<char>> {
    let items = gs.local_player.items@;
    if exists|i: int| 0 <= i < items.len() && item_usable(#[trigger] items[i], slot) {
        let i = choose|i: int|
            0 <= i < items.len() && item_usable(#[trigger] items[i], slot) && forall|j: int|
                0 <= j < i ==> !item_usable(#[trigger] items[j], slot);
        Some(items[i].item_id@)
    } else {
        None
    }
}

/// What a key press does, given the ability being aimed: the command, the
/// ability aimed afterwards, and whether leaving is requested.
pub open spec fn on_key(selected: Option<Seq<char>>, gs: GameState, key: KeyEvent) -> (Command, Option<Seq<char>>, bool) {
    if is_quit_key(key.code) {
        if selected is Some {
            (Command::Cancel, None, false)
        } else {
            (Command::Quit, None, true)
        }
    } else if let KeyCode::Char(c) = key.code {
        if let Some(slot) = ability_slot(c) {
            match hotkey_ability(gs, slot) {
                Some(id) => (Command::Continue, Some(id), false),
                None => (Command::Continue, selected, false),
            }
        } else if let Some(slot) = item_slot(c) {
            match hotkey_item(gs, slot) {
                Some(id) => (Command::UseItem(id, None), selected, false),
                None => (Command::Continue, selected, false),
            }
        } else {
            (Command::Continue, selected, false)
        }
    } else {
        (Command::Continue, selected, false)
    }
}

/// What a mouse event at world position `pos` does, given the ability being
/// aimed: the command and the ability aimed afterwards.
pub open spec fn on_mouse(selected: Option<Seq<char>>, pos: WorldPos, ev: MouseEvent) -> (Command, Option<Seq<char>>) {
    match ev.kind {
        MouseEventKind::Down(MouseButton::Left) => {
            match selected {
                Some(id) => (Command::CastAbility(id, pos), None),
                None => {
                    if ev.modifiers.shift {
                        (Command::MoveAttack(pos), None)
                    } else if ev.modifiers.control {
                        (Command::ForceAttack(pos), None)
                    } else {
                        (Command::Move(pos), None)
                    }
                },
            }
        },
        MouseEventKind::Down(MouseButton::Right) => {
            if selected is Some {
                (Command::Cancel, None)
            } else {
                (Command::Attack(pos), None)
            }
        },
        _ => (Command::Continue, selected),
    }
}

/// The world position under the cell `(column, row)` of a `w` x `h` map
/// centred on the local player.
pub open spec fn click_pos(gs: GameState, column: int, row: int, w: int, h: int) -> WorldPos {
    let cam = gs.local_player.position;
    WorldPos { x: world_axis(column, cam.x as int, w) as i32, y: world_axis(row, cam.y as int, h) as i32 }
}

/// What starting the event reader does: whether a reader is spawned, and
/// whether one runs afterwards.
pub open spec fn start_reader(running: bool) -> (bool, bool) {
    (!running, true)
}

/// What an event does to a handler that has not been asked to leave: the
/// command, the ability aimed afterwards, and whether leaving is requested.
pub open spec fn on_event(
    selected: Option<Seq<char>>,
    gs: GameState,
    event: Option<InputEvent>,
    w: int,
    h: int,
) -> (Command, Option<Seq<char>>, bool) {
    match event {
        Some(InputEvent::Key(k)) => on_key(selected, gs, k),
        Some(InputEvent::Mouse(m)) => {
            let r = on_mouse(selected, click_pos(gs, m.column as int, m.row as int, w, h), m);
            (r.0, r.1, false)
        },
        _ => (Command::Continue, selected, false),
    }
}

/// Translates raw events into commands; holds the ability being aimed and
/// the request to leave.
pub struct InputHandler {
    /// The ability being aimed, if any.
    pub selected_ability: Option<String>,
    exit_requested: bool,
    reader_running: bool,
}

impl InputHandler {
    /// The ability being aimed, as text.
    pub closed spec fn selected(&self) -> Option<Seq<char>> {
        match self.selected_ability {
            Some(s) => Some(s@),
            None => None,
        }
    }

    pub closed spec fn exit_flag(&self) -> bool {
        self.exit_requested
    }

    /// Whether the event reader runs.
    pub closed spec fn reader(&self) -> bool {
        self.reader_running
    }

    /// A handler with nothing aimed, no request to leave, and no reader.
    pub fn new() -> (r: InputHandler)
        ensures
            r.selected() is None,
            !r.exit_flag(),
            !r.reader(),
    {
        InputHandler { selected_ability: None, exit_requested: false, reader_running: false }
    }

    /// Marks the event reader as started. Returns whether a reader must be
    /// spawned: only when none runs yet, so that two readers never compete
    /// for the same input.
    pub fn start_event_thread(&mut self) -> (spawn: bool)
        ensures
            (spawn, final(self).reader()) == start_reader(old(self).reader()),
            final(self).selected() == old(self).selected(),
            final(self).exit_flag() == old(self).exit_flag(),
    {
        if self.reader_running {
            return false;
        }
        self.reader_running = true;
        true
    }

    /// Marks the event reader as stopped. Returns whether one ran and must
    /// be told to stop.
    pub fn stop_event_thread(&mut self) -> (stop: bool)
        ensures
            stop == old(self).reader(),
            !final(self).reader(),
            final(self).selected() == old(self).selected(),
            final(self).exit_flag() == old(self).exit_flag(),
    {
        let was = self.reader_running;
        self.reader_running = false;
        was
    }

    /// Whether leaving has been requested.
    pub fn is_exit_requested(&self) -> (r: bool)
        ensures
            r == self.exit_flag(),
    {
        self.exit_requested
    }

    /// Records a request to leave made elsewhere (another input source).
    pub fn request_exit(&mut self)
        ensures
            final(self).exit_flag(),
            final(self).selected() == old(self).selected(),
            final(self).reader() == old(self).reader(),
    {
        self.exit_requested = true;
    }

    /// The ability that the hotkey of slot `index` selects.
    fn get_hero_ability(&self, game_state: &GameState, index: usize) -> (r: Option<String>)
        ensures
            match r {
                Some(s) => Some(s@),
                None => None::<Seq<char>>,
            } == hotkey_ability(*game_state, index as int),
    {
        let ids = hero_ability_ids(&game_state.local_player.hero_type);
        if index >= ids.len() {
            return None;
        }
        let ghost id = ids@[index as int]@;
        let abilities = &game_state.local_player.abilities;
        let mut i: usize = 0;
        while i < abilities.len()
            invariant
                i <= abilities@.len(),
                index < ids@.len(),
                ids@.len() == hero_abilities(game_state.local_player.hero_type@).len(),
                forall|k: int| 0 <= k < ids@.len() ==> #[trigger] ids@[k]@ == hero_abilities(
                    game_state.local_player.hero_type@,
                )[k],
                abilities == &game_state.local_player.abilities,
                id == ids@[index as int]@,
                forall|k: int|
                    0 <= k < i && (#[trigger] abilities@[k]).ability_id@ == id ==> abilities@[k].cooldown_remaining
                        == 0,
            decreases abilities@.len() - i,
        {
            if abilities[i].ability_id == ids[index] && abilities[i].cooldown_remaining > 0 {
                return None;
            }
            i = i + 1;
        }
        Some(ids[index].clone())
    }

    /// The index of the first item usable from the hotkey of `slot`.
    fn get_item_by_slot(&self, game_state: &GameState, slot: u8) -> (r: Option<usize>)
        ensures
            match r {
                Some(i) => i < game_state.local_player.items@.len() && game_state.local_player.items@[i as int].item_id@
                    == hotkey_item(*game_state, slot as int).unwrap() && hotkey_item(*game_state, slot as int) is Some,
                None => hotkey_item(*game_state, slot as int) is None,
            },
    {
        let items = &game_state.local_player.items;
        let mut i: usize = 0;
        while i < items.len()
            invariant
                i <= items@.len(),
                items == &game_state.local_player.items,
                forall|j: int| 0 <= j < i ==> !item_usable(#[trigger] items@[j], slot as int),
            decreases items@.len() - i,
        {
            if items[i].slot == slot && items[i].is_available && items[i].charges > 0
                && items[i].cooldown_remaining == 0 {
                proof {
                    assert(item_usable(items@[i as int], slot as int));
                    assert(0 <= i < items@.len() && item_usable(items@[i as int], slot as int) && forall|j: int|
                        0 <= j < i ==> !item_usable(#[trigger] items@[j], slot as int));
                    let k = choose|k: int|
                        0 <= k < items@.len() && item_usable(#[trigger] items@[k], slot as int) && forall|j: int|
                            0 <= j < k ==> !item_usable(#[trigger] items@[j], slot as int);
                    if k < i {
                    } else if k > i {
                        assert(!item_usable(items@[i as int], slot as int));
                    }
                    assert(k == i);
                }
                return Some(i);
            }
            i = i + 1;
        }
        None
    }

    /// Drops the aimed ability, or else requests leaving.
    fn handle_esc_key(&mut self) -> (r: UserInput)
        ensures
            old(self).selected() is Some ==> r@ == Command::Cancel && final(self).exit_flag() == old(self).exit_flag(),
            old(self).selected() is None ==> r@ == Command::Quit && final(self).exit_flag(),
            final(self).selected() is None,
            final(self).reader() == old(self).reader(),
    {
        if self.selected_ability.is_some() {
            self.selected_ability = None;
            UserInput::Cancel
        } else {
            self.exit_requested = true;
            UserInput::Quit
        }
    }

    fn ability_slot_of(c: char) -> (r: Option<usize>)
        ensures
            match r {
                Some(k) => Some(k as int),
                None => None::<int>,
            } == ability_slot(c),
    {
        if c == 'w' || c == 'W' {
            Some(0)
        } else if c == 'e' || c == 'E' {
            Some(1)
        } else if c == 'r' || c == 'R' {
            Some(2)
        } else if c == 't' || c == 'T' {
            Some(3)
        } else {
            None
        }
    }

    fn item_slot_of(c: char) -> (r: Option<u8>)
        ensures
            match r {
                Some(k) => Some(k as int),
                None => None::<int>,
            } == item_slot(c),
    {
        if c == '1' {
            Some(1)
        } else if c == '2' {
            Some(2)
        } else if c == '3' {
            Some(3)
        } else if c == '4' {
            Some(4)
        } else if c == '5' {
            Some(5)
        } else if c == '6' {
            Some(6)
        } else if c == '7' {
            Some(7)
        } else if c == '8' {
            Some(8)
        } else if c == '9' {
            Some(9)
        } else {
            None
        }
    }

    /// Handles a key press: the quit keys drop the aimed ability or else
    /// request leaving; an ability hotkey aims that ability; an item hotkey
    /// uses the first usable item of its slot.
    pub fn handle_key_event(&mut self, key_event: KeyEvent, game_state: &GameState) -> (r: UserInput)
        ensures
            ({
                let (c, s, q) = on_key(old(self).selected(), *game_state, key_event);
                r@ == c && final(self).selected() == s && final(self).exit_flag() == (old(self).exit_flag() || q)
            }),
            final(self).reader() == old(self).reader(),
    {
        match key_event.code {
            KeyCode::Esc => self.handle_esc_key(),
            KeyCode::Char(c) => {
                if c == 'q' || c == 'Q' {
                    return self.handle_esc_key();
                }
                if let Some(slot) = Self::ability_slot_of(c) {
                    if let Some(ability) = self.get_hero_ability(game_state, slot) {
                        self.selected_ability = Some(ability);
                    }
                    return UserInput::Continue;
                }
                if let Some(slot) = Self::item_slot_of(c) {
                    if let Some(i) = self.get_item_by_slot(game_state, slot) {
                        let id = game_state.local_player.items[i].item_id.clone();
                        return UserInput::UseItem(id, None);
                    }
                    return UserInput::Continue;
                }
                UserInput::Continue
            },
            _ => UserInput::Continue,
        }
    }

    /// Handles a mouse event at the world position under the pointer, on a
    /// `terminal_width` x `terminal_height` map centred on the local
    /// player: a left click casts the aimed ability, or else moves
    /// (attacking on the way with Shift, forcing an attack with Ctrl); a
    /// right click drops the aimed ability, or else attacks.
    pub fn handle_mouse_event(
        &mut self,
        mouse_event: MouseEvent,
        game_state: &GameState,
        viewport: &ViewportManager,
        terminal_width: u16,
        terminal_height: u16,
    ) -> (r: UserInput)
        ensures
            ({
                let pos = click_pos(
                    *game_state,
                    mouse_event.column as int,
                    mouse_event.row as int,
                    terminal_width as int,
                    terminal_height as int,
                );
                let (c, s) = on_mouse(old(self).selected(), pos, mouse_event);
                r@ == c && final(self).selected() == s
            }),
            final(self).exit_flag() == old(self).exit_flag(),
            final(self).reader() == old(self).reader(),
    {
        let world_pos = viewport.screen_to_world(
            mouse_event.column,
            mouse_event.row,
            game_state.local_player.position,
            terminal_width as usize,
            terminal_height as usize,
        );
        match mouse_event.kind {
            MouseEventKind::Down(MouseButton::Left) => {
                let selected = self.selected_ability.take();
                match selected {
                    Some(ability_id) => UserInput::CastAbility(ability_id, world_pos),
                    None => {
                        if mouse_event.modifiers.shift {
                            UserInput::MoveAttack(world_pos)
                        } else if mouse_event.modifiers.control {
                            UserInput::ForceAttack(world_pos)
                        } else {
                            UserInput::Move(world_pos)
                        }
                    },
                }
            },
            MouseEventKind::Down(MouseButton::Right) => {
                if self.selected_ability.is_some() {
                    self.selected_ability = None;
                    UserInput::Cancel
                } else {
                    UserInput::Attack(world_pos)
                }
            },
            _ => UserInput::Continue,
        }
    }

    /// Handles the event of one frame, if any: `Quit` once leaving has been
    /// requested, else what the event does; `Continue` when there is none.
    pub fn handle_input(
        &mut self,
        event: Option<InputEvent>,
        game_state: &GameState,
        viewport: &ViewportManager,
        terminal_width: u16,
        terminal_height: u16,
    ) -> (r: UserInput)
        ensures
            old(self).exit_flag() ==> r@ == Command::Quit && final(self).selected() == old(self).selected()
                && final(self).exit_flag(),
            !old(self).exit_flag() ==> ({
                let (c, s, q) = on_event(
                    old(self).selected(),
                    *game_state,
                    event,
                    terminal_width as int,
                    terminal_height as int,
                );
                r@ == c && final(self).selected() == s && final(self).exit_flag() == q
            }),
            final(self).reader() == old(self).reader(),
    {
        if self.exit_requested {
            return UserInput::Quit;
        }
        match event {
            Some(InputEvent::Key(k)) => self.handle_key_event(k, game_state),
            Some(InputEvent::Mouse(m)) => self.handle_mouse_event(
                m,
                game_state,
                viewport,
                terminal_width,
                terminal_height,
            ),
            _ => UserInput::Continue,
        }
    }

    /// The hint shown for the escape key.
    pub fn get_esc_status(&self) -> (r: String)
        ensures
            self.selected() is Some ==> r@ == "ESC: cancel the selected ability"@,
            self.selected() is None ==> r@ == "ESC: quit"@,
    {
        if self.selected_ability.is_some() {
            "ESC: cancel the selected ability".to_string()
        } else {
            "ESC: quit".to_string()
        }
    }
}

/// Starting the event reader twice spawns at most one reader, and one
/// exactly when none ran before; a reader runs afterwards.
pub proof fn lemma_start_reader_twice(running: bool)
    ensures
        ({
            let (spawn1, running1) = start_reader(running);
            let (spawn2, running2) = start_reader(running1);
            !(spawn1 && spawn2) && (spawn1 || spawn2) == !running && running2
        }),
{
}

/// An ability hotkey aims its ability without issuing a command. A right
/// click then issues one `Cancel` and leaves nothing aimed; a left click
/// instead issues one `CastAbility` of that ability at the clicked position
/// and leaves nothing aimed, so the click after it is no cast.
pub proof fn lemma_hotkey_then_click(
    selected: Option<Seq<char>>,
    gs: GameState,
    key: KeyEvent,
    c: char,
    pos: WorldPos,
    click: MouseEvent,
    next_pos: WorldPos,
    next_click: MouseEvent,
)
    requires
        key.code == KeyCode::Char(c),
        ability_slot(c) is Some,
        hotkey_ability(gs, ability_slot(c).unwrap()) is Some,
    ensures
        ({
            let id = hotkey_ability(gs, ability_slot(c).unwrap()).unwrap();
            let (cmd, aimed, quit) = on_key(selected, gs, key);
            &&& cmd == Command::Continue
            &&& aimed == Some(id)
            &&& !quit
            &&& click.kind == MouseEventKind::Down(MouseButton::Right) ==> on_mouse(aimed, pos, click) == (
                Command::Cancel,
                None::<Seq<char>>,
            )
            &&& click.kind == MouseEventKind::Down(MouseButton::Left) ==> {
                &&& on_mouse(aimed, pos, click) == (Command::CastAbility(id, pos), None::<Seq<char>>)
                &&& !(on_mouse(on_mouse(aimed, pos, click).1, next_pos, next_click).0 is CastAbility)
            }
        }),
{
}

} // verus!
