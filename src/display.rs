//! Glyphs and colours drawn on the map.
use vstd::prelude::*;

verus! {

/// Terminal foreground colours used by the map.
#[derive(Clone, Copy, Debug, PartialEq, Eq, Structural)]
pub enum Color {
    Black,
    DarkGrey,
    Red,
    DarkRed,
    Green,
    DarkGreen,
    Yellow,
    DarkYellow,
    Blue,
    DarkBlue,
    Magenta,
    DarkMagenta,
    Cyan,
    DarkCyan,
    White,
    Grey,
}

/// One character cell of the map: a symbol and its colour.
#[derive(Clone, Copy, Debug, PartialEq, Eq, Structural)]
pub struct MapDisplay {
    pub symbol: char,
    pub color: Color,
}

/// What a cell of the map shows.
#[derive(Clone, Copy, Debug, PartialEq, Eq, Structural)]
pub enum Role {
    PlayerSelf,
    PlayerAlly,
    PlayerEnemy,
    SummonAlly,
    SummonEnemy,
    Projectile,
    Effect,
    Empty,
    Wall,
    Tree,
    Water,
    Mountain,
    VisionEdge,
    FogOfWar,
    Explosion,
    DistanceMarker,
}

/// The fixed table from role to glyph.
pub open spec fn role_glyph(role: Role) -> MapDisplay {
    match role {
        Role::PlayerSelf => MapDisplay { symbol: '@', color: Color::Yellow },
        Role::PlayerAlly => MapDisplay { symbol: 'A', color: Color::Green },
        Role::PlayerEnemy => MapDisplay { symbol: 'E', color: Color::Red },
        Role::SummonAlly => MapDisplay { symbol: 's', color: Color::Cyan },
        Role::SummonEnemy => MapDisplay { symbol: 'S', color: Color::Magenta },
        Role::Projectile => MapDisplay { symbol: '*', color: Color::White },
        Role::Effect => MapDisplay { symbol: '!', color: Color::Red },
        Role::Empty => MapDisplay { symbol: '.', color: Color::DarkGrey },
        Role::Wall => MapDisplay { symbol: '#', color: Color::Grey },
        Role::Tree => MapDisplay { symbol: 'T', color: Color::DarkGreen },
        Role::Water => MapDisplay { symbol: '~', color: Color::Blue },
        Role::Mountain => MapDisplay { symbol: '^', color: Color::DarkGrey },
        Role::VisionEdge => MapDisplay { symbol: '○', color: Color::Yellow },
        Role::FogOfWar => MapDisplay { symbol: '?', color: Color::DarkGrey },
        Role::Explosion => MapDisplay { symbol: '%', color: Color::Red },
        Role::DistanceMarker => MapDisplay { symbol: '+', color: Color::DarkYellow },
    }
}

impl MapDisplay {
    pub fn new(symbol: char, color: Color) -> (r: MapDisplay)
        ensures
            r.symbol == symbol,
            r.color == color,
    {
        MapDisplay { symbol, color }
    }

    /// The glyph that the table gives `role`.
    pub fn of(role: Role) -> (r: MapDisplay)
        ensures
            r == role_glyph(role),
    {
        match role {
            Role::PlayerSelf => MapDisplay { symbol: '@', color: Color::Yellow },
            Role::PlayerAlly => MapDisplay { symbol: 'A', color: Color::Green },
            Role::PlayerEnemy => MapDisplay { symbol: 'E', color: Color::Red },
            Role::SummonAlly => MapDisplay { symbol: 's', color: Color::Cyan },
            Role::SummonEnemy => MapDisplay { symbol: 'S', color: Color::Magenta },
            Role::Projectile => MapDisplay { symbol: '*', color: Color::White },
            Role::Effect => MapDisplay { symbol: '!', color: Color::Red },
            Role::Empty => MapDisplay { symbol: '.', color: Color::DarkGrey },
            Role::Wall => MapDisplay { symbol: '#', color: Color::Grey },
            Role::Tree => MapDisplay { symbol: 'T', color: Color::DarkGreen },
            Role::Water => MapDisplay { symbol: '~', color: Color::Blue },
            Role::Mountain => MapDisplay { symbol: '^', color: Color::DarkGrey },
            Role::VisionEdge => MapDisplay { symbol: '○', color: Color::Yellow },
            Role::FogOfWar => MapDisplay { symbol: '?', color: Color::DarkGrey },
            Role::Explosion => MapDisplay { symbol: '%', color: Color::Red },
            Role::DistanceMarker => MapDisplay { symbol: '+', color: Color::DarkYellow },
        }
    }

    /// Whether the cell shows the empty-ground symbol.
    pub fn is_empty(&self) -> (r: bool)
        ensures
            r == (self.symbol == role_glyph(Role::Empty).symbol),
    {
        self.symbol == '.'
    }
}

} // verus!
