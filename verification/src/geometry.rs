use vstd::prelude::*;

verus! {

/// Side length of a room, in tiles.
pub const ROOM_SIZE: u8 = 50;

/// A room on the world map, by the game's room coordinates: `E<n>` is
/// `x_coord == n`, `W<n>` is `x_coord == -n - 1`; likewise `S<n>` and `N<n>`
/// for `y_coord`.
#[derive(Clone, Copy, Debug, PartialEq, Eq, Structural, Hash)]
pub struct RoomName {
    pub x_coord: i32,
    pub y_coord: i32,
}

/// A tile inside a room.
#[derive(Clone, Copy, Debug, PartialEq, Eq, Structural, Hash)]
pub struct RoomXY {
    pub x: u8,
    pub y: u8,
}

/// A tile on the world map: a room and the tile inside it.
#[derive(Clone, Copy, Debug, PartialEq, Eq, Structural, Hash)]
pub struct Position {
    pub room: RoomName,
    pub x: u8,
    pub y: u8,
}

impl RoomName {
    /// The room coordinates the game can represent.
    pub open spec fn valid(self) -> bool {
        -128 <= self.x_coord < 128 && -128 <= self.y_coord < 128
    }
}

impl Position {
    pub open spec fn valid(self) -> bool {
        self.room.valid() && self.x < 50 && self.y < 50
    }

    /// Whether the position is one the game can represent.
    pub fn is_valid(&self) -> (r: bool)
        ensures
            r == self.valid(),
    {
        -128 <= self.room.x_coord && self.room.x_coord < 128 && -128 <= self.room.y_coord && self.room.y_coord < 128
            && self.x < 50 && self.y < 50
    }

    /// Horizontal world coordinate: `50 * room x + x`.
    pub open spec fn world_x(self) -> int {
        self.room.x_coord * 50 + self.x
    }

    /// Vertical world coordinate: `50 * room y + y`.
    pub open spec fn world_y(self) -> int {
        self.room.y_coord * 50 + self.y
    }
}

pub open spec fn abs(v: int) -> int {
    if v < 0 { -v } else { v }
}

/// Linear (Chebyshev) distance between two world positions.
pub open spec fn spec_range(a: Position, b: Position) -> int {
    let dx = abs(a.world_x() - b.world_x());
    let dy = abs(a.world_y() - b.world_y());
    if dx < dy { dy } else { dx }
}

/// Same room, and at most one tile apart on each axis.
pub open spec fn spec_near(a: Position, b: Position) -> bool {
    a.room == b.room && abs(a.x - b.x) <= 1 && abs(a.y - b.y) <= 1
}

pub open spec fn spec_edge_xy(x: int, y: int) -> bool {
    x == 0 || x == 49 || y == 0 || y == 49
}

/// Linear distance between two positions, across rooms.
pub fn get_range_to(a: Position, b: Position) -> (r: u32)
    requires
        a.valid(),
        b.valid(),
    ensures
        r == spec_range(a, b),
{
    let dx: i32 = (a.room.x_coord - b.room.x_coord) * 50 + (a.x as i32 - b.x as i32);
    let dy: i32 = (a.room.y_coord - b.room.y_coord) * 50 + (a.y as i32 - b.y as i32);
    let ax: i32 = if dx < 0 { -dx } else { dx };
    let ay: i32 = if dy < 0 { -dy } else { dy };
    if ax < ay { ay as u32 } else { ax as u32 }
}

/// Whether `b` is within `range` of `a`.
pub fn in_range_to(a: Position, b: Position, range: u32) -> (r: bool)
    requires
        a.valid(),
        b.valid(),
    ensures
        r == (spec_range(a, b) <= range),
{
    get_range_to(a, b) <= range
}

/// Whether `b` is in the same room as `a` and adjacent to or on it.
pub fn is_near_to(a: Position, b: Position) -> (r: bool)
    ensures
        r == spec_near(a, b),
{
    a.room == b.room
        && (a.x as i32 - b.x as i32 <= 1 && b.x as i32 - a.x as i32 <= 1)
        && (a.y as i32 - b.y as i32 <= 1 && b.y as i32 - a.y as i32 <= 1)
}

/// Whether a position lies on the border of its room.
pub fn is_room_edge(p: Position) -> (r: bool)
    ensures
        r == spec_edge_xy(p.x as int, p.y as int),
{
    p.x == 0 || p.x == 49 || p.y == 0 || p.y == 49
}

/// Whether a position is one tile inside the border of its room.
pub fn is_near_edge(p: Position) -> (r: bool)
    ensures
        r == (p.x == 1 || p.x == 48 || p.y == 1 || p.y == 48),
{
    p.x == 1 || p.x == ROOM_SIZE - 2 || p.y == 1 || p.y == ROOM_SIZE - 2
}

/// Whether a position is at least `range` tiles away from every border of
/// its room (measured as in the game: `range <= x <= 50 - range`).
pub fn remoted_from_edge(p: Position, range: u8) -> (r: bool)
    ensures
        r == (range <= 50 && range <= p.x && p.x <= 50 - range && range <= p.y && p.y <= 50 - range),
{
    if range > ROOM_SIZE {
        false
    } else {
        !(p.x < range || p.x > ROOM_SIZE - range || p.y < range || p.y > ROOM_SIZE - range)
    }
}

/// A tile from its coordinates; the coordinates must lie inside a room.
pub fn room_xy(x: u8, y: u8) -> (r: RoomXY)
    requires
        x < 50,
        y < 50,
    ensures
        r.x == x,
        r.y == y,
{
    RoomXY { x, y }
}

} // verus!
