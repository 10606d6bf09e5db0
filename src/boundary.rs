//! Boundary containment: bodies that leave the arena come back from the opposite
//! edge, and shots that leave it are removed.
use crate::geometry::{Arena, Vec2, COORD_LIMIT, UNITS_PER_PIXEL};
use crate::meteors::Meteor;
use vstd::prelude::*;

verus! {

/// One of the four walls along the arena's edges.
#[derive(Clone, Copy, Debug, PartialEq, Eq, Structural)]
pub enum Wall {
    Left,
    Right,
    Top,
    Bottom,
}

/// Which walls a body currently overlaps, as the physics engine reports it.
#[derive(Clone, Copy, Debug, PartialEq, Eq, Structural)]
pub struct WallContacts {
    pub left: bool,
    pub right: bool,
    pub top: bool,
    pub bottom: bool,
}

/// Where the four walls stand: the left and bottom ones on the zero lines, the
/// right and top ones one pixel inside the far edges.
#[derive(Clone, Copy, Debug, PartialEq, Eq, Structural)]
pub struct WallLayout {
    pub left_x: i64,
    pub right_x: i64,
    pub top_y: i64,
    pub bottom_y: i64,
}

/// Positions of the walls around an arena.
pub fn spawn_walls(arena: Arena) -> (r: WallLayout)
    requires
        arena.wf(),
    ensures
        r.left_x == 0,
        r.bottom_y == 0,
        r.right_x == arena.width - UNITS_PER_PIXEL,
        r.top_y == arena.height - UNITS_PER_PIXEL,
{
    WallLayout {
        left_x: 0,
        right_x: arena.width - UNITS_PER_PIXEL,
        top_y: arena.height - UNITS_PER_PIXEL,
        bottom_y: 0,
    }
}

/// Whether a body centred at `p`, of half-width `hw`, has crossed the edge of `wall`
/// while still within its half-width of that edge.
pub open spec fn crossed(wall: Wall, p: Vec2, hw: int, arena: Arena) -> bool {
    match wall {
        Wall::Left => p.x < hw && p.x < 0,
        Wall::Right => arena.width - p.x < hw && p.x > arena.width,
        Wall::Top => arena.height - p.y < hw && p.y > arena.height,
        Wall::Bottom => p.y < hw && p.y < 0,
    }
}

pub open spec fn touches(c: WallContacts, wall: Wall) -> bool {
    match wall {
        Wall::Left => c.left,
        Wall::Right => c.right,
        Wall::Top => c.top,
        Wall::Bottom => c.bottom,
    }
}

/// Where a body reappears after crossing `wall`: half its width inside the
/// opposite edge, the other coordinate unchanged.
pub open spec fn wrapped(wall: Wall, p: Vec2, hw: int, arena: Arena) -> (int, int) {
    match wall {
        Wall::Left => (arena.width - hw, p.y as int),
        Wall::Right => (hw, p.y as int),
        Wall::Top => (p.x as int, hw),
        Wall::Bottom => (p.x as int, arena.height - hw),
    }
}

/// The wall whose crossing relocates the body: the first of left, right, top and
/// bottom that the body touches and has crossed.
pub open spec fn relocating_wall(c: WallContacts, p: Vec2, hw: int, arena: Arena) -> Option<Wall> {
    if touches(c, Wall::Left) && crossed(Wall::Left, p, hw, arena) {
        Some(Wall::Left)
    } else if touches(c, Wall::Right) && crossed(Wall::Right, p, hw, arena) {
        Some(Wall::Right)
    } else if touches(c, Wall::Top) && crossed(Wall::Top, p, hw, arena) {
        Some(Wall::Top)
    } else if touches(c, Wall::Bottom) && crossed(Wall::Bottom, p, hw, arena) {
        Some(Wall::Bottom)
    } else {
        None
    }
}

/// Bounds on what the containment logic is handed.
pub open spec fn containment_inputs_ok(p: Vec2, hw: int, arena: Arena) -> bool {
    &&& arena.wf()
    &&& -COORD_LIMIT <= p.x <= COORD_LIMIT
    &&& -COORD_LIMIT <= p.y <= COORD_LIMIT
    &&& 0 <= hw <= COORD_LIMIT
}

/// The position a body moves to this tick, if any: at most one relocation, by the
/// first wall in the order left, right, top, bottom that the body touches and has crossed.
pub fn wall_relocation(position: Vec2, half_width: i64, contacts: WallContacts, arena: Arena) -> (r:
    Option<Vec2>)
    requires
        containment_inputs_ok(position, half_width as int, arena),
    ensures
        match relocating_wall(contacts, position, half_width as int, arena) {
            None => r.is_none(),
            Some(w) => r.is_some() && r.unwrap().x == wrapped(w, position, half_width as int, arena).0
                && r.unwrap().y == wrapped(w, position, half_width as int, arena).1,
        },
{
    if contacts.left && position.x < half_width && position.x < 0 {
        Some(Vec2 { x: arena.width - half_width, y: position.y })
    } else if contacts.right && arena.width - position.x < half_width && position.x > arena.width {
        Some(Vec2 { x: half_width, y: position.y })
    } else if contacts.top && arena.height - position.y < half_width && position.y > arena.height {
        Some(Vec2 { x: position.x, y: half_width })
    } else if contacts.bottom && position.y < half_width && position.y < 0 {
        Some(Vec2 { x: position.x, y: arena.height - half_width })
    } else {
        None
    }
}

/// The replacement of a meteor that left the arena: the same meteor (size class,
/// health, velocity, sprite) at the wrapped position; `None` when it stays put.
pub fn handle_meteor_intersections_with_wall(
    meteor: &Meteor,
    position: Vec2,
    half_width: i64,
    contacts: WallContacts,
    arena: Arena,
) -> (r: Option<(Meteor, Vec2)>)
    requires
        containment_inputs_ok(position, half_width as int, arena),
    ensures
        match relocating_wall(contacts, position, half_width as int, arena) {
            None => r.is_none(),
            Some(w) => r.is_some() && r.unwrap().1.x == wrapped(w, position, half_width as int, arena).0
                && r.unwrap().1.y == wrapped(w, position, half_width as int, arena).1
                && r.unwrap().0 == *meteor,
        },
{
    match wall_relocation(position, half_width, contacts, arena) {
        None => None,
        Some(p) => {
            let m = meteor.duplicate();
            Some((m, p))
        },
    }
}

/// The wrapped position and carried-over velocity of the player's ship, if it left
/// the arena; `None` when it stays put.
pub fn handle_player_intersections_with_wall(
    position: Vec2,
    velocity: Vec2,
    half_width: i64,
    contacts: WallContacts,
    arena: Arena,
) -> (r: Option<(Vec2, Vec2)>)
    requires
        containment_inputs_ok(position, half_width as int, arena),
    ensures
        match relocating_wall(contacts, position, half_width as int, arena) {
            None => r.is_none(),
            Some(w) => r.is_some() && r.unwrap().0.x == wrapped(w, position, half_width as int, arena).0
                && r.unwrap().0.y == wrapped(w, position, half_width as int, arena).1
                && r.unwrap().1 == velocity,
        },
{
    match wall_relocation(position, half_width, contacts, arena) {
        None => None,
        Some(p) => Some((p, velocity)),
    }
}

/// Whether a shot at `p` is beyond `wall`.
pub open spec fn beyond(wall: Wall, p: Vec2, walls: WallLayout) -> bool {
    match wall {
        Wall::Left => p.x < walls.left_x,
        Wall::Right => p.x > walls.right_x,
        Wall::Top => p.y > walls.top_y,
        Wall::Bottom => p.y < walls.bottom_y,
    }
}

/// The wall a shot at `p` has passed, checked in the order left, right, top, bottom.
pub open spec fn exited_through(p: Vec2, walls: WallLayout) -> Option<Wall> {
    if beyond(Wall::Left, p, walls) {
        Some(Wall::Left)
    } else if beyond(Wall::Right, p, walls) {
        Some(Wall::Right)
    } else if beyond(Wall::Top, p, walls) {
        Some(Wall::Top)
    } else if beyond(Wall::Bottom, p, walls) {
        Some(Wall::Bottom)
    } else {
        None
    }
}

/// The wall a shot has passed, if any: such a shot is removed, with no wraparound
/// and no damage dealt.
pub fn handle_shot_intersections_with_wall(position: Vec2, walls: WallLayout) -> (r: Option<Wall>)
    ensures
        r == exited_through(position, walls),
{
    if position.x < walls.left_x {
        Some(Wall::Left)
    } else if position.x > walls.right_x {
        Some(Wall::Right)
    } else if position.y > walls.top_y {
        Some(Wall::Top)
    } else if position.y < walls.bottom_y {
        Some(Wall::Bottom)
    } else {
        None
    }
}

/// A body whose centre has crossed the left edge while it touches the left wall
/// reappears half its width inside the right edge, at the same height.
pub proof fn lemma_left_crossing_wraps_right(
    contacts: WallContacts,
    p: Vec2,
    half_width: int,
    arena: Arena,
)
    requires
        contacts.left,
        p.x < 0,
        half_width > 0,
    ensures
        relocating_wall(contacts, p, half_width, arena) == Some(Wall::Left),
        wrapped(Wall::Left, p, half_width, arena) == (arena.width - half_width, p.y as int),
{
}

} // verus!
