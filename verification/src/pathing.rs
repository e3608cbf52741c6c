use vstd::prelude::*;
use crate::position::Position;
use crate::tile::TileType;
use crate::index::TileHash;

verus! {

/// The route of an agent: the cells to walk through, where it wants to go,
/// and whether that place was found to be out of reach.
///
/// A route starts with the cell the agent stands on and ends with the
/// destination.
#[derive(Clone, Debug)]
pub struct Pathing {
    pub path: Vec<Position>,
    pub destination: Position,
    pub unreachable: bool,
}

/// Whether two positions name the same cell of the plane, whatever their
/// layers.
pub open spec fn same_cell(a: Position, b: Position) -> bool {
    a.x == b.x && a.y == b.y
}

/// Whether one step leads from `a` to `b`: the cells differ, by at most one
/// in each direction of the plane.
pub open spec fn adjacent(a: Position, b: Position) -> bool {
    &&& -1 <= a.x - b.x <= 1
    &&& -1 <= a.y - b.y <= 1
    &&& !same_cell(a, b)
}

/// The ground under a position: the same cell on layer zero, where the
/// tiles lie.
pub open spec fn ground(p: Position) -> Position {
    Position { x: p.x, y: p.y, z: 0 }
}

/// Whether an agent can stand at `p`: the ground there is known and is no
/// wall.
pub open spec fn passable(world: Map<Position, TileType>, p: Position) -> bool {
    world.contains_key(ground(p)) && !world[ground(p)].spec_is_wall()
}

/// Whether `path` leads from `start` to `destination` step by step over
/// passable cells.
pub open spec fn is_route(
    world: Map<Position, TileType>,
    start: Position,
    destination: Position,
    path: Seq<Position>,
) -> bool {
    &&& path.len() > 0
    &&& same_cell(path[0], start)
    &&& same_cell(path[path.len() - 1], destination)
    &&& forall|i: int| 0 <= i < path.len() ==> passable(world, #[trigger] path[i])
    &&& forall|i: int| 0 <= i < path.len() - 1 ==> adjacent(#[trigger] path[i], path[i + 1])
}

pub fn is_same_cell(a: Position, b: Position) -> (same: bool)
    ensures
        same == same_cell(a, b),
{
    a.x == b.x && a.y == b.y
}

pub fn is_adjacent(a: Position, b: Position) -> (near: bool)
    ensures
        near == adjacent(a, b),
{
    let dx: i64 = a.x as i64 - b.x as i64;
    let dy: i64 = a.y as i64 - b.y as i64;
    -1 <= dx && dx <= 1 && -1 <= dy && dy <= 1 && !(dx == 0 && dy == 0)
}

pub fn is_passable(world: &TileHash, p: Position) -> (free: bool)
    ensures
        free == passable(world@, p),
{
    match world.lookup(Position { x: p.x, y: p.y, z: 0 }) {
        Some(tile_type) => !tile_type.is_wall(),
        None => false,
    }
}

impl Pathing {
    /// What every mover owes: either a route from `start` to the destination,
    /// or the word that there is none, with no path left over.
    pub open spec fn spec_honors_contract(&self, start: Position, world: Map<Position, TileType>) -> bool {
        if self.unreachable {
            self.path@.len() == 0
        } else {
            is_route(world, start, self.destination, self.path@)
        }
    }

    /// Tells whether the route holds against the world as it is.
    pub fn honors_contract(&self, start: Position, world: &TileHash) -> (kept: bool)
        ensures
            kept == self.spec_honors_contract(start, world@),
    {
        let n = self.path.len();
        if self.unreachable {
            return n == 0;
        }
        if n == 0 {
            return false;
        }
        if !is_same_cell(self.path[0], start) || !is_same_cell(self.path[n - 1], self.destination) {
            return false;
        }
        let mut i: usize = 0;
        while i < n
            invariant
                n == self.path@.len(),
                i <= n,
                forall|j: int| 0 <= j < i ==> passable(world@, #[trigger] self.path@[j]),
                forall|j: int|
                    0 <= j < i && j < n - 1 ==> adjacent(#[trigger] self.path@[j], self.path@[j + 1]),
            decreases n - i,
        {
            if !is_passable(world, self.path[i]) {
                return false;
            }
            if i + 1 < n && !is_adjacent(self.path[i], self.path[i + 1]) {
                return false;
            }
            i = i + 1;
        }
        true
    }

    /// Gives the destination up: the path is emptied and the place is marked
    /// as out of reach.
    pub fn mark_unreachable(&mut self)
        ensures
            final(self).unreachable,
            final(self).path@.len() == 0,
            final(self).destination == old(self).destination,
            forall|start: Position, world: Map<Position, TileType>|
                final(self).spec_honors_contract(start, world),
    {
        self.path = Vec::new();
        self.unreachable = true;
    }
}

impl Default for Pathing {
    /// No route yet: an empty path, the origin as destination, nothing found
    /// out of reach.
    fn default() -> (pathing: Pathing)
        ensures
            pathing.path@.len() == 0,
            pathing.destination == (Position { x: 0, y: 0, z: 0 }),
            !pathing.unreachable,
    {
        Pathing { path: Vec::new(), destination: Position { x: 0, y: 0, z: 0 }, unreachable: false }
    }
}

/// A route never leads over a wall.
pub proof fn lemma_route_avoids_walls(
    world: Map<Position, TileType>,
    start: Position,
    destination: Position,
    path: Seq<Position>,
    i: int,
)
    requires
        is_route(world, start, destination, path),
        0 <= i < path.len(),
    ensures
        world.contains_key(ground(path[i])),
        !world[ground(path[i])].spec_is_wall(),
{
    assert(passable(world, path[i]));
}

} // verus!
