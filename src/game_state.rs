//! The point-in-time game snapshot that the view reads.
use vstd::prelude::*;
use vstd::string::*;
use vstd::pervasive::VecAdditionalExecFns;
use crate::viewport::WorldPos;

verus! {

/// Current and maximum health.
#[derive(Clone, Copy, Debug, PartialEq, Eq, Structural)]
pub struct Health {
    pub current: u32,
    pub max: u32,
}

/// What kind of thing an entity is.
#[derive(Clone, Debug)]
pub enum EntityType {
    /// A player, by name.
    Player(String),
    /// A summoned unit, by unit type.
    Summon(String),
    Projectile,
    Effect,
}

/// A game entity other than a player of the local client.
#[derive(Clone, Debug)]
pub struct Entity {
    pub id: u32,
    pub entity_type: EntityType,
    pub position: WorldPos,
    pub health: Health,
    /// Name of the owning player, if any.
    pub owner: Option<String>,
}

/// Another player as last reported by the server.
#[derive(Clone, Debug)]
pub struct PlayerState {
    pub name: String,
    pub hero_type: String,
    pub position: WorldPos,
    pub health: Health,
}

/// One ability of the local hero.
#[derive(Clone, Debug)]
pub struct AbilityState {
    pub ability_id: String,
    pub level: u8,
    /// Cooldown left, in milliseconds.
    pub cooldown_remaining: u32,
    pub is_available: bool,
}

/// One item of the local inventory.
#[derive(Clone, Debug)]
pub struct ItemState {
    pub item_id: String,
    pub name: String,
    /// Inventory slot, 1 to 9.
    pub slot: u8,
    pub charges: u32,
    /// Cooldown left, in milliseconds.
    pub cooldown_remaining: u32,
    pub is_available: bool,
}

/// A unit summoned by the local player.
#[derive(Clone, Debug)]
pub struct SummonState {
    pub id: u32,
    pub unit_type: String,
    pub position: WorldPos,
    pub health: Health,
}

/// The local player.
#[derive(Clone, Debug)]
pub struct LocalPlayer {
    pub name: String,
    pub hero_type: String,
    pub position: WorldPos,
    pub health: Health,
    pub abilities: Vec<AbilityState>,
    /// Inventory, slots 1 to 9.
    pub items: Vec<ItemState>,
    pub summons: Vec<SummonState>,
    pub level: u8,
    pub experience: u32,
}

/// A snapshot of the game as seen by the local client.
#[derive(Clone, Debug)]
pub struct GameState {
    pub local_player: LocalPlayer,
    pub other_players: Vec<PlayerState>,
    pub entities: Vec<Entity>,
}

/// The four ability ids of a hero type, by hotkey slot; empty for a hero
/// type without a mapping.
pub open spec fn hero_abilities(hero_type: Seq<char>) -> Seq<Seq<char>> {
    if hero_type == "saika_magoichi"@ {
        seq!["sniper_mode"@, "saika_reinforcements"@, "rain_iron_cannon"@, "three_stage_technique"@]
    } else if hero_type == "date_masamune"@ {
        seq!["flame_blade"@, "fire_dash"@, "flame_assault"@, "matchlock_gun"@]
    } else {
        seq![]
    }
}

/// Whether `s` holds the same text as the literal `lit`.
pub fn string_is(s: &String, lit: &str) -> (r: bool)
    ensures
        r == (s@ == lit@),
{
    let l = lit.to_string();
    *s == l
}

/// The ability ids of `hero_type`, by hotkey slot.
pub fn hero_ability_ids(hero_type: &String) -> (r: Vec<String>)
    ensures
        r@.len() == hero_abilities(hero_type@).len(),
        forall|i: int| 0 <= i < r@.len() ==> #[trigger] r@[i]@ == hero_abilities(hero_type@)[i],
{
    let mut v: Vec<String> = Vec::new();
    if string_is(hero_type, "saika_magoichi") {
        v.push("sniper_mode".to_string());
        v.push("saika_reinforcements".to_string());
        v.push("rain_iron_cannon".to_string());
        v.push("three_stage_technique".to_string());
    } else if string_is(hero_type, "date_masamune") {
        v.push("flame_blade".to_string());
        v.push("fire_dash".to_string());
        v.push("flame_assault".to_string());
        v.push("matchlock_gun".to_string());
    }
    v
}

/// The starting inventory: item id, slot and charges of each item.
pub open spec fn default_items() -> Seq<(Seq<char>, u8, u32)> {
    seq![
        ("health_potion"@, 1u8, 5u32),
        ("mana_potion"@, 2u8, 3u32),
        ("teleport_scroll"@, 3u8, 2u32),
        ("smoke_bomb"@, 4u8, 4u32),
    ]
}

/// The index of the player named `name` in `players`, if any.
pub open spec fn player_index(players: Seq<PlayerState>, name: Seq<char>) -> Option<int> {
    if exists|i: int| 0 <= i < players.len() && (#[trigger] players[i]).name@ == name {
        Some(choose|i: int| 0 <= i < players.len() && (#[trigger] players[i]).name@ == name)
    } else {
        None
    }
}

/// `players` with `p` in place of the player of the same name, or with
/// `p` added when there is none.
pub open spec fn upsert_player(players: Seq<PlayerState>, p: PlayerState) -> Seq<PlayerState> {
    match player_index(players, p.name@) {
        Some(i) => players.update(i, p),
        None => players.push(p),
    }
}

/// `entities` with `e` in place of the entity of the same id, or with `e`
/// added when there is none.
pub open spec fn upsert_entity(entities: Seq<Entity>, e: Entity) -> Seq<Entity> {
    if exists|i: int| 0 <= i < entities.len() && (#[trigger] entities[i]).id == e.id {
        let i = choose|i: int| 0 <= i < entities.len() && (#[trigger] entities[i]).id == e.id;
        entities.update(i, e)
    } else {
        entities.push(e)
    }
}

/// A cooldown `delta` milliseconds later.
pub open spec fn cooled(remaining: u32, delta: u32) -> u32 {
    if remaining > delta { (remaining - delta) as u32 } else { 0 }
}

/// An ability `delta` milliseconds later: a running cooldown goes down,
/// and the ability is ready again when it runs out.
pub open spec fn cool_ability(a: AbilityState, delta: u32) -> AbilityState {
    if a.cooldown_remaining > 0 {
        AbilityState {
            cooldown_remaining: cooled(a.cooldown_remaining, delta),
            is_available: if cooled(a.cooldown_remaining, delta) == 0 { true } else { a.is_available },
            ..a
        }
    } else {
        a
    }
}

/// An item `delta` milliseconds later, as for abilities.
pub open spec fn cool_item(it: ItemState, delta: u32) -> ItemState {
    if it.cooldown_remaining > 0 {
        ItemState {
            cooldown_remaining: cooled(it.cooldown_remaining, delta),
            is_available: if cooled(it.cooldown_remaining, delta) == 0 { true } else { it.is_available },
            ..it
        }
    } else {
        it
    }
}

impl GameState {
    /// Other players are keyed by name and entities by id.
    pub open spec fn wf(&self) -> bool {
        &&& forall|i: int, j: int|
            0 <= i < j < self.other_players@.len() ==> (#[trigger] self.other_players@[i]).name@
                != (#[trigger] self.other_players@[j]).name@
        &&& forall|i: int, j: int|
            0 <= i < j < self.entities@.len() ==> (#[trigger] self.entities@[i]).id
                != (#[trigger] self.entities@[j]).id
    }

    /// Whether the snapshot holds anything received from the server: the
    /// local player has left the origin, or some other player, entity or
    /// summon is known.
    pub open spec fn has_data(&self) -> bool {
        !self.local_player.position.is_origin()
            || self.other_players@.len() > 0
            || self.entities@.len() > 0
            || self.local_player.summons@.len() > 0
    }

    /// A fresh snapshot for a player of `hero_type` named `player_name`: at
    /// the origin, full health, the hero's abilities ready and the starting
    /// inventory, with nobody else known.
    pub fn new(player_name: String, hero_type: String) -> (r: GameState)
        ensures
            r.local_player.name@ == player_name@,
            r.local_player.hero_type@ == hero_type@,
            r.local_player.position.is_origin(),
            r.local_player.health == (Health { current: 100, max: 100 }),
            r.local_player.abilities@.len() == hero_abilities(hero_type@).len(),
            forall|i: int| 0 <= i < r.local_player.abilities@.len() ==> {
                let a = #[trigger] r.local_player.abilities@[i];
                a.ability_id@ == hero_abilities(hero_type@)[i] && a.level == 1
                    && a.cooldown_remaining == 0 && a.is_available
            },
            r.local_player.items@.len() == default_items().len(),
            forall|i: int| 0 <= i < r.local_player.items@.len() ==> {
                let it = #[trigger] r.local_player.items@[i];
                it.item_id@ == default_items()[i].0 && it.slot == default_items()[i].1
                    && it.charges == default_items()[i].2 && it.cooldown_remaining == 0
                    && it.is_available
            },
            r.local_player.summons@.len() == 0,
            r.local_player.level == 1,
            r.local_player.experience == 0,
            r.other_players@.len() == 0,
            r.entities@.len() == 0,
            !r.has_data(),
            r.wf(),
    {
        let abilities = Self::init_hero_abilities(&hero_type);
        let items = Self::init_default_items();
        let local_player = LocalPlayer {
            name: player_name,
            hero_type,
            position: WorldPos::zero(),
            health: Health { current: 100, max: 100 },
            abilities,
            items,
            summons: Vec::new(),
            level: 1,
            experience: 0,
        };
        GameState { local_player, other_players: Vec::new(), entities: Vec::new() }
    }

    fn new_item(item_id: &str, name: &str, slot: u8, charges: u32) -> (r: ItemState)
        ensures
            r.item_id@ == item_id@,
            r.name@ == name@,
            r.slot == slot,
            r.charges == charges,
            r.cooldown_remaining == 0,
            r.is_available,
    {
        ItemState {
            item_id: item_id.to_string(),
            name: name.to_string(),
            slot,
            charges,
            cooldown_remaining: 0,
            is_available: true,
        }
    }

    fn init_default_items() -> (r: Vec<ItemState>)
        ensures
            r@.len() == default_items().len(),
            forall|i: int| 0 <= i < r@.len() ==> {
                let it = #[trigger] r@[i];
                it.item_id@ == default_items()[i].0 && it.slot == default_items()[i].1
                    && it.charges == default_items()[i].2 && it.cooldown_remaining == 0
                    && it.is_available
            },
    {
        let mut v: Vec<ItemState> = Vec::new();
        v.push(Self::new_item("health_potion", "Health Potion", 1, 5));
        v.push(Self::new_item("mana_potion", "Mana Potion", 2, 3));
        v.push(Self::new_item("teleport_scroll", "Teleport Scroll", 3, 2));
        v.push(Self::new_item("smoke_bomb", "Smoke Bomb", 4, 4));
        v
    }

    fn init_hero_abilities(hero_type: &String) -> (r: Vec<AbilityState>)
        ensures
            r@.len() == hero_abilities(hero_type@).len(),
            forall|i: int| 0 <= i < r@.len() ==> {
                let a = #[trigger] r@[i];
                a.ability_id@ == hero_abilities(hero_type@)[i] && a.level == 1
                    && a.cooldown_remaining == 0 && a.is_available
            },
    {
        let ids = hero_ability_ids(hero_type);
        let mut v: Vec<AbilityState> = Vec::new();
        let n = ids.len();
        let mut i: usize = 0;
        while i < n
            invariant
                n == ids@.len(),
                i <= n,
                v@.len() == i,
                n == hero_abilities(hero_type@).len(),
                forall|k: int| 0 <= k < n ==> #[trigger] ids@[k]@ == hero_abilities(hero_type@)[k],
                forall|k: int| 0 <= k < i ==> {
                    let a = #[trigger] v@[k];
                    a.ability_id@ == hero_abilities(hero_type@)[k] && a.level == 1
                        && a.cooldown_remaining == 0 && a.is_available
                },
            decreases n - i,
        {
            let id = ids[i].clone();
            v.push(AbilityState { ability_id: id, level: 1, cooldown_remaining: 0, is_available: true });
            i = i + 1;
        }
        v
    }

    /// The index of the other player named `name`, found by a scan.
    fn find_player(&self, name: &String) -> (r: Option<usize>)
        ensures
            r matches Some(i) ==> i < self.other_players@.len() && self.other_players@[i as int].name@ == name@,
            self.wf() ==> (r matches Some(i) ==> player_index(self.other_players@, name@) == Some(i as int)),
            r is None ==> player_index(self.other_players@, name@) is None,
    {
        let mut i: usize = 0;
        while i < self.other_players.len()
            invariant
                i <= self.other_players@.len(),
                forall|k: int| 0 <= k < i ==> (#[trigger] self.other_players@[k]).name@ != name@,
            decreases self.other_players@.len() - i,
        {
            if self.other_players[i].name == *name {
                proof {
                    let k = choose|k: int|
                        0 <= k < self.other_players@.len() && (#[trigger] self.other_players@[k]).name@ == name@;
                    if self.wf() && k != i {
                        if k < i {
                        } else {
                            assert(self.other_players@[i as int].name@ != self.other_players@[k].name@);
                        }
                    }
                }
                return Some(i);
            }
            i = i + 1;
        }
        None
    }

    /// Takes in a full player state from the server: the local player's
    /// position and health, or another player's whole state, replacing the
    /// earlier one of the same name.
    pub fn sync_player_state(&mut self, player_state: PlayerState)
        requires
            old(self).wf(),
        ensures
            final(self).wf(),
            final(self).entities == old(self).entities,
            player_state.name@ == old(self).local_player.name@ ==> {
                &&& final(self).local_player == (LocalPlayer {
                    position: player_state.position,
                    health: player_state.health,
                    ..old(self).local_player
                })
                &&& final(self).other_players == old(self).other_players
            },
            player_state.name@ != old(self).local_player.name@ ==> {
                &&& final(self).local_player == old(self).local_player
                &&& final(self).other_players@ == upsert_player(old(self).other_players@, player_state)
            },
    {
        if player_state.name == self.local_player.name {
            self.local_player.position = player_state.position;
            self.local_player.health = player_state.health;
            return;
        }
        let ghost before = self.other_players@;
        match self.find_player(&player_state.name) {
            Some(i) => {
                let mut p = player_state;
                self.other_players.set_and_swap(i, &mut p);
                assert(self.wf()) by {
                    assert forall|a: int, b: int| 0 <= a < b < self.other_players@.len() implies
                        (#[trigger] self.other_players@[a]).name@ != (#[trigger] self.other_players@[b]).name@ by {
                        if a != i && b != i {
                            assert(self.other_players@[a] == before[a]);
                            assert(self.other_players@[b] == before[b]);
                        } else if a == i {
                            assert(before[i as int].name@ == self.other_players@[a].name@);
                            assert(before[b].name@ != before[i as int].name@);
                        } else {
                            assert(before[i as int].name@ == self.other_players@[b].name@);
                            assert(before[a].name@ != before[i as int].name@);
                        }
                    }
                }
            },
            None => {
                self.other_players.push(player_state);
                assert(self.wf()) by {
                    assert forall|a: int, b: int| 0 <= a < b < self.other_players@.len() implies
                        (#[trigger] self.other_players@[a]).name@ != (#[trigger] self.other_players@[b]).name@ by {
                        if b == before.len() {
                            assert(self.other_players@[a] == before[a]);
                        } else {
                            assert(self.other_players@[a] == before[a]);
                            assert(self.other_players@[b] == before[b]);
                        }
                    }
                }
            },
        }
    }

    /// Records the entity `entity`, replacing the earlier one of the same id.
    pub fn insert_entity(&mut self, entity: Entity)
        requires
            old(self).wf(),
        ensures
            final(self).wf(),
            final(self).local_player == old(self).local_player,
            final(self).other_players == old(self).other_players,
            final(self).entities@ == upsert_entity(old(self).entities@, entity),
    {
        let ghost before = self.entities@;
        let mut i: usize = 0;
        while i < self.entities.len()
            invariant
                i <= self.entities@.len(),
                self.entities@ == before,
                before == old(self).entities@,
                self.local_player == old(self).local_player,
                self.other_players == old(self).other_players,
                self.wf(),
                forall|k: int| 0 <= k < i ==> (#[trigger] self.entities@[k]).id != entity.id,
            decreases self.entities@.len() - i,
        {
            if self.entities[i].id == entity.id {
                proof {
                    assert(0 <= i < before.len() && before[i as int].id == entity.id);
                    let k = choose|k: int| 0 <= k < before.len() && (#[trigger] before[k]).id == entity.id;
                    if k != i {
                        if k < i {
                        } else {
                            assert(before[i as int].id != before[k].id);
                        }
                    }
                    assert(k == i);
                }
                let mut e = entity;
                self.entities.set_and_swap(i, &mut e);
                assert(self.wf()) by {
                    assert forall|a: int, b: int| 0 <= a < b < self.entities@.len() implies
                        (#[trigger] self.entities@[a]).id != (#[trigger] self.entities@[b]).id by {
                        if a != i && b != i {
                            assert(self.entities@[a] == before[a]);
                            assert(self.entities@[b] == before[b]);
                        } else if a == i {
                            assert(before[b].id != before[i as int].id);
                        } else {
                            assert(before[a].id != before[i as int].id);
                        }
                    }
                }
                return;
            }
            i = i + 1;
        }
        self.entities.push(entity);
        assert(self.wf()) by {
            assert forall|a: int, b: int| 0 <= a < b < self.entities@.len() implies
                (#[trigger] self.entities@[a]).id != (#[trigger] self.entities@[b]).id by {
                assert(self.entities@[a] == before[a]);
                if b < before.len() {
                    assert(self.entities@[b] == before[b]);
                }
            }
        }
    }

    /// Moves the player named `player_name`: the local player, or a known
    /// other player; an unknown name changes nothing.
    pub fn update_player_position(&mut self, player_name: &String, x: i32, y: i32)
        requires
            old(self).wf(),
        ensures
            final(self).wf(),
            final(self).entities == old(self).entities,
            player_name@ == old(self).local_player.name@ ==> {
                &&& final(self).local_player == (LocalPlayer {
                    position: WorldPos { x, y },
                    ..old(self).local_player
                })
                &&& final(self).other_players == old(self).other_players
            },
            player_name@ != old(self).local_player.name@ ==> {
                &&& final(self).local_player == old(self).local_player
                &&& final(self).other_players@ == match player_index(old(self).other_players@, player_name@) {
                    Some(i) => old(self).other_players@.update(
                        i,
                        PlayerState { position: WorldPos { x, y }, ..old(self).other_players@[i] },
                    ),
                    None => old(self).other_players@,
                }
            },
    {
        if *player_name == self.local_player.name {
            self.local_player.position = WorldPos { x, y };
            return;
        }
        if let Some(i) = self.find_player(player_name) {
            let ghost before = self.other_players@;
            let mut p = PlayerState {
                name: String::new(),
                hero_type: String::new(),
                position: WorldPos { x: 0, y: 0 },
                health: Health { current: 0, max: 0 },
            };
            self.other_players.set_and_swap(i, &mut p);
            p.position = WorldPos { x, y };
            self.other_players.set_and_swap(i, &mut p);
            assert(self.other_players@ =~= before.update(
                i as int,
                PlayerState { position: WorldPos { x, y }, ..before[i as int] },
            ));
            assert(self.wf()) by {
                assert forall|a: int, b: int| 0 <= a < b < self.other_players@.len() implies
                    (#[trigger] self.other_players@[a]).name@ != (#[trigger] self.other_players@[b]).name@ by {
                    assert(self.other_players@[a].name@ == before[a].name@);
                    assert(self.other_players@[b].name@ == before[b].name@);
                }
            }
        }
    }

    /// Sets the health of the player named `player_name`: the local player,
    /// or a known other player; an unknown name changes nothing.
    pub fn update_player_health(&mut self, player_name: &String, current: u32, max: u32)
        requires
            old(self).wf(),
        ensures
            final(self).wf(),
            final(self).entities == old(self).entities,
            player_name@ == old(self).local_player.name@ ==> {
                &&& final(self).local_player == (LocalPlayer {
                    health: Health { current, max },
                    ..old(self).local_player
                })
                &&& final(self).other_players == old(self).other_players
            },
            player_name@ != old(self).local_player.name@ ==> {
                &&& final(self).local_player == old(self).local_player
                &&& final(self).other_players@ == match player_index(old(self).other_players@, player_name@) {
                    Some(i) => old(self).other_players@.update(
                        i,
                        PlayerState { health: Health { current, max }, ..old(self).other_players@[i] },
                    ),
                    None => old(self).other_players@,
                }
            },
    {
        if *player_name == self.local_player.name {
            self.local_player.health = Health { current, max };
            return;
        }
        if let Some(i) = self.find_player(player_name) {
            let ghost before = self.other_players@;
            let mut p = PlayerState {
                name: String::new(),
                hero_type: String::new(),
                position: WorldPos { x: 0, y: 0 },
                health: Health { current: 0, max: 0 },
            };
            self.other_players.set_and_swap(i, &mut p);
            p.health = Health { current, max };
            self.other_players.set_and_swap(i, &mut p);
            assert(self.other_players@ =~= before.update(
                i as int,
                PlayerState { health: Health { current, max }, ..before[i as int] },
            ));
            assert(self.wf()) by {
                assert forall|a: int, b: int| 0 <= a < b < self.other_players@.len() implies
                    (#[trigger] self.other_players@[a]).name@ != (#[trigger] self.other_players@[b]).name@ by {
                    assert(self.other_players@[a].name@ == before[a].name@);
                    assert(self.other_players@[b].name@ == before[b].name@);
                }
            }
        }
    }

    /// Advances every running ability and item cooldown by `delta_ms`
    /// milliseconds; one that runs out makes its ability or item ready.
    pub fn update_cooldowns(&mut self, delta_ms: u32)
        ensures
            final(self).other_players == old(self).other_players,
            final(self).entities == old(self).entities,
            final(self).local_player.abilities@ == old(self).local_player.abilities@.map_values(
                |a: AbilityState| cool_ability(a, delta_ms),
            ),
            final(self).local_player.items@ == old(self).local_player.items@.map_values(
                |it: ItemState| cool_item(it, delta_ms),
            ),
            final(self).local_player.position == old(self).local_player.position,
            final(self).local_player.name == old(self).local_player.name,
            final(self).local_player.hero_type == old(self).local_player.hero_type,
            final(self).local_player.summons == old(self).local_player.summons,
            final(self).wf() == old(self).wf(),
    {
        let ghost abilities0 = self.local_player.abilities@;
        let n = self.local_player.abilities.len();
        let mut i: usize = 0;
        while i < n
            invariant
                i <= n,
                n == abilities0.len(),
                self.local_player.abilities@.len() == n,
                self.other_players == old(self).other_players,
                self.entities == old(self).entities,
                self.local_player.items == old(self).local_player.items,
                self.local_player.position == old(self).local_player.position,
                self.local_player.name == old(self).local_player.name,
                self.local_player.hero_type == old(self).local_player.hero_type,
                self.local_player.summons == old(self).local_player.summons,
                abilities0 == old(self).local_player.abilities@,
                forall|k: int| 0 <= k < i ==> #[trigger] self.local_player.abilities@[k] == cool_ability(abilities0[k], delta_ms),
                forall|k: int| i <= k < n ==> #[trigger] self.local_player.abilities@[k] == abilities0[k],
            decreases n - i,
        {
            let mut a = AbilityState { ability_id: String::new(), level: 0, cooldown_remaining: 0, is_available: false };
            self.local_player.abilities.set_and_swap(i, &mut a);
            if a.cooldown_remaining > 0 {
                a.cooldown_remaining = if a.cooldown_remaining > delta_ms { a.cooldown_remaining - delta_ms } else { 0 };
                if a.cooldown_remaining == 0 {
                    a.is_available = true;
                }
            }
            self.local_player.abilities.set_and_swap(i, &mut a);
            i = i + 1;
        }
        assert(self.local_player.abilities@ =~= abilities0.map_values(|a: AbilityState| cool_ability(a, delta_ms)));
        let ghost items0 = self.local_player.items@;
        let m = self.local_player.items.len();
        let mut j: usize = 0;
        while j < m
            invariant
                j <= m,
                m == items0.len(),
                self.local_player.items@.len() == m,
                self.other_players == old(self).other_players,
                self.entities == old(self).entities,
                self.local_player.abilities@ == abilities0.map_values(|a: AbilityState| cool_ability(a, delta_ms)),
                self.local_player.position == old(self).local_player.position,
                self.local_player.name == old(self).local_player.name,
                self.local_player.hero_type == old(self).local_player.hero_type,
                self.local_player.summons == old(self).local_player.summons,
                abilities0 == old(self).local_player.abilities@,
                items0 == old(self).local_player.items@,
                forall|k: int| 0 <= k < j ==> #[trigger] self.local_player.items@[k] == cool_item(items0[k], delta_ms),
                forall|k: int| j <= k < m ==> #[trigger] self.local_player.items@[k] == items0[k],
            decreases m - j,
        {
            let mut it = ItemState {
                item_id: String::new(),
                name: String::new(),
                slot: 0,
                charges: 0,
                cooldown_remaining: 0,
                is_available: false,
            };
            self.local_player.items.set_and_swap(j, &mut it);
            if it.cooldown_remaining > 0 {
                it.cooldown_remaining = if it.cooldown_remaining > delta_ms { it.cooldown_remaining - delta_ms } else { 0 };
                if it.cooldown_remaining == 0 {
                    it.is_available = true;
                }
            }
            self.local_player.items.set_and_swap(j, &mut it);
            j = j + 1;
        }
        assert(self.local_player.items@ =~= items0.map_values(|it: ItemState| cool_item(it, delta_ms)));
    }

    /// Whether the snapshot holds anything received from the server.
    pub fn has_valid_data(&self) -> (r: bool)
        ensures
            r == self.has_data(),
    {
        if self.local_player.position.x != 0 || self.local_player.position.y != 0 {
            return true;
        }
        if self.other_players.len() > 0 {
            return true;
        }
        if self.entities.len() > 0 {
            return true;
        }
        self.local_player.summons.len() > 0
    }
}

} // verus!
