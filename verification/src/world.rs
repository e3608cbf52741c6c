use rand::seq::SliceRandom;
use vstd::prelude::*;
use crate::index::{map_of_cells, MapCell, TileHash};
use crate::position::Position;
use crate::tile::{Biome, TileType};

verus! {

/// The cells that a generation pass hands out, with the index built from them.
#[derive(Debug)]
pub struct GeneratedMap {
    /// The cells, column by column. Where no cell is left out, the cell at
    /// `(x, y)` stands at `cell_index(x, y, length)`.
    pub tiles: Vec<MapCell>,
    pub index: TileHash,
}

pub open spec fn in_grid(x: int, y: int, width: int, length: int) -> bool {
    0 <= x < width && 0 <= y < length
}

/// The outer ring of a `width` by `length` grid.
pub open spec fn on_border(x: int, y: int, width: int, length: int) -> bool {
    x == 0 || x == width - 1 || y == 0 || y == length - 1
}

pub open spec fn cell_index(x: int, y: int, length: int) -> int {
    x * length + y
}

pub open spec fn cell_count(width: int, length: int) -> nat {
    if width > 0 && length > 0 {
        (width * length) as nat
    } else {
        0
    }
}

/// The ground-layer position of grid cell `(x, y)`.
pub open spec fn grid_position(x: int, y: int) -> Position {
    Position { x: x as i32, y: y as i32, z: 0 }
}

/// The order in which cells are generated: column by column, and upwards
/// within a column.
pub open spec fn comes_before(a: Position, b: Position) -> bool {
    a.x < b.x || (a.x == b.x && a.y < b.y)
}

/// Whether every cell of the grid gets a tile: there is a biome to draw
/// from, or the grid is too narrow to have an inner cell.
pub open spec fn fills_grid(width: int, length: int, biome: Seq<TileType>) -> bool {
    biome.len() > 0 || width < 3 || length < 3
}

/// Whether the cell at `(x, y)` gets a tile: every border cell does, and an
/// inner cell does where there is a biome to draw from.
pub open spec fn has_tile(x: int, y: int, width: int, length: int, biome: Seq<TileType>) -> bool {
    in_grid(x, y, width, length) && (on_border(x, y, width, length) || biome.len() > 0)
}

/// The rule for what a cell is made of: the boundary wall on the border, a
/// tile of the biome inside.
pub open spec fn fits_cell(
    tile_type: TileType,
    x: int,
    y: int,
    width: int,
    length: int,
    biome: Seq<TileType>,
) -> bool {
    if on_border(x, y, width, length) {
        tile_type == TileType::WallGame
    } else {
        biome.contains(tile_type)
    }
}

/// What generation promises of the cell at `(x, y)`: it lies there, it is the
/// boundary wall on the border and a tile of the biome inside.
pub open spec fn generated_cell(
    cell: MapCell,
    x: int,
    y: int,
    width: int,
    length: int,
    biome: Seq<TileType>,
) -> bool {
    &&& cell.position == grid_position(x, y)
    &&& fits_cell(cell.tile_type, x, y, width, length, biome)
}

/// The cell at `(x, y)`, given what was drawn for it: the boundary wall on
/// the border, whatever was drawn; inside, the tile drawn, and no cell where
/// nothing was.
pub open spec fn spec_cell_for(
    x: i32,
    y: i32,
    width: i32,
    length: i32,
    drawn: Option<TileType>,
) -> Option<MapCell> {
    if on_border(x as int, y as int, width as int, length as int) {
        Some(MapCell { position: grid_position(x as int, y as int), tile_type: TileType::WallGame })
    } else {
        match drawn {
            Some(tile_type) => Some(
                MapCell { position: grid_position(x as int, y as int), tile_type },
            ),
            None => None,
        }
    }
}

/// Cells before `(x, y)` in generation order.
spec fn visited(i: int, j: int, x: int, y: int, length: int) -> bool {
    0 <= i && 0 <= j < length && (i < x || (i == x && j < y))
}

spec fn filled_before(
    cells: Seq<MapCell>,
    index: Map<Position, TileType>,
    biome: Seq<TileType>,
    width: int,
    length: int,
    x: int,
    y: int,
) -> bool {
    &&& index == map_of_cells(cells)
    &&& index.dom().finite()
    &&& index.dom().len() == cells.len()
    &&& forall|p: Position| #[trigger]
        index.contains_key(p) <==> p.z == 0 && visited(p.x as int, p.y as int, x, y, length)
            && has_tile(p.x as int, p.y as int, width, length, biome)
    &&& forall|p: Position| #[trigger]
        index.contains_key(p) ==> fits_cell(index[p], p.x as int, p.y as int, width, length, biome)
    &&& forall|k: int|
        0 <= k < cells.len() ==> index.contains_key(#[trigger] cells[k].position)
            && index[cells[k].position] == cells[k].tile_type
    &&& forall|i: int, j: int|
        0 <= i < j < cells.len() ==> comes_before(#[trigger] cells[i].position, #[trigger] cells[j].position)
    &&& fills_grid(width, length, biome) ==> {
        &&& cells.len() == cell_index(x, y, length)
        &&& forall|i: int, j: int|
            visited(i, j, x, y, length) ==> cells[#[trigger] cell_index(i, j, length)].position
                == grid_position(i, j)
    }
}

proof fn lemma_visited_index(i: int, j: int, x: int, y: int, length: int)
    requires
        visited(i, j, x, y, length),
        0 <= y <= length,
    ensures
        0 <= cell_index(i, j, length) < cell_index(x, y, length),
{
    assert(0 <= i * length) by (nonlinear_arith)
        requires
            0 <= i,
            0 <= length,
    ;
    if i < x {
        assert((i + 1) * length <= x * length) by (nonlinear_arith)
            requires
                i + 1 <= x,
                0 <= length,
        ;
        assert((i + 1) * length == i * length + length) by (nonlinear_arith);
    }
}

proof fn lemma_next_column(x: int, length: int)
    ensures
        cell_index(x, length, length) == cell_index(x + 1, 0, length),
{
    assert((x + 1) * length == x * length + length) by (nonlinear_arith);
}

/// Whether `(x, y)` lies on the outer ring of a `width` by `length` grid.
pub fn is_border(x: i32, y: i32, width: i32, length: i32) -> (border: bool)
    ensures
        border == on_border(x as int, y as int, width as int, length as int),
{
    x == 0 || x as i64 == width as i64 - 1 || y == 0 || y as i64 == length as i64 - 1
}

/// The cell at `(x, y)` of a `width` by `length` grid, given what was drawn
/// for it.
pub fn cell_for(x: i32, y: i32, width: i32, length: i32, drawn: Option<TileType>) -> (cell: Option<
    MapCell,
>)
    ensures
        cell == spec_cell_for(x, y, width, length, drawn),
{
    let position = Position { x, y, z: 0 };
    if is_border(x, y, width, length) {
        Some(MapCell { position, tile_type: TileType::WallGame })
    } else {
        match drawn {
            Some(tile_type) => Some(MapCell { position, tile_type }),
            None => None,
        }
    }
}

/// Draws one tile type with `rand::seq::SliceRandom::choose`, fed by the
/// generator of `rand::thread_rng`. The draw differs from call to call; what
/// is claimed holds of each: nothing comes out of an empty list, and what
/// comes out of another is one of its entries.
#[verifier::external_body]
fn choose_tile(tiles: &Vec<TileType>) -> (drawn: Option<&TileType>)
    ensures
        tiles@.len() == 0 ==> drawn is None,
        tiles@.len() > 0 ==> drawn is Some && tiles@.contains(*drawn->0),
{
    tiles.choose(&mut rand::thread_rng())
}

/// Fills a `width` by `length` grid: the boundary wall on the outer ring, and
/// inside it a tile type drawn at random from the biome for each cell. The
/// index holds exactly one entry per cell handed out. A grid with no cell (a
/// dimension below one) gives an empty result.
///
/// With an empty biome there is nothing to draw: the inner cells are then
/// left out, and a lookup there finds nothing.
pub fn generate_map(biome: &Biome, width: i32, length: i32) -> (world: GeneratedMap)
    ensures
        world.index@ == map_of_cells(world.tiles@),
        world.index@.dom().finite(),
        world.index@.dom().len() == world.tiles@.len(),
        forall|p: Position| #[trigger]
            world.index@.contains_key(p) <==> p.z == 0 && has_tile(
                p.x as int,
                p.y as int,
                width as int,
                length as int,
                biome.tiles@,
            ),
        forall|p: Position| #[trigger]
            world.index@.contains_key(p) ==> fits_cell(
                world.index@[p],
                p.x as int,
                p.y as int,
                width as int,
                length as int,
                biome.tiles@,
            ),
        forall|k: int|
            0 <= k < world.tiles@.len() ==> world.index@.contains_key(
                #[trigger] world.tiles@[k].position,
            ) && world.index@[world.tiles@[k].position] == world.tiles@[k].tile_type,
        forall|i: int, j: int|
            0 <= i < j < world.tiles@.len() ==> comes_before(
                #[trigger] world.tiles@[i].position,
                #[trigger] world.tiles@[j].position,
            ),
        fills_grid(width as int, length as int, biome.tiles@) ==> world.tiles@.len() == cell_count(
            width as int,
            length as int,
        ),
        fills_grid(width as int, length as int, biome.tiles@) ==> forall|x: int, y: int|
            in_grid(x, y, width as int, length as int) ==> {
                let cell = world.tiles@[#[trigger] cell_index(x, y, length as int)];
                &&& generated_cell(cell, x, y, width as int, length as int, biome.tiles@)
                &&& world.index@.contains_key(cell.position)
                &&& world.index@[cell.position] == cell.tile_type
            },
{
    let mut tiles: Vec<MapCell> = Vec::new();
    let mut index = TileHash::new();
    if width <= 0 || length <= 0 {
        return GeneratedMap { tiles, index };
    }
    let mut x: i32 = 0;
    proof {
        assert(cell_index(0, 0, length as int) == 0) by (nonlinear_arith);
    }
    while x < width
        invariant
            0 < width,
            0 < length,
            0 <= x <= width,
            filled_before(
                tiles@,
                index@,
                biome.tiles@,
                width as int,
                length as int,
                x as int,
                0,
            ),
        decreases width - x,
    {
        let mut y: i32 = 0;
        while y < length
            invariant
                0 < width,
                0 < length,
                0 <= x < width,
                0 <= y <= length,
                filled_before(
                    tiles@,
                    index@,
                    biome.tiles@,
                    width as int,
                    length as int,
                    x as int,
                    y as int,
                ),
            decreases length - y,
        {
            let drawn = if is_border(x, y, width, length) {
                None
            } else {
                match choose_tile(&biome.tiles) {
                    Some(tile_type) => Some(*tile_type),
                    None => None,
                }
            };
            let ghost w = width as int;
            let ghost l = length as int;
            let ghost before_cells = tiles@;
            let ghost before_index = index@;
            if let Some(cell) = cell_for(x, y, width, length, drawn) {
                tiles.push(cell);
                index.insert(cell.position, cell.tile_type);
                proof {
                    assert(tiles@.drop_last() =~= before_cells);
                    assert(!before_index.contains_key(cell.position));
                    assert forall|k: int| 0 <= k < tiles@.len() implies index@.contains_key(
                        #[trigger] tiles@[k].position,
                    ) && index@[tiles@[k].position] == tiles@[k].tile_type by {
                        if k < before_cells.len() {
                            assert(before_index.contains_key(before_cells[k].position));
                        }
                    }
                    assert forall|i: int, j: int| 0 <= i < j < tiles@.len() implies comes_before(
                        #[trigger] tiles@[i].position,
                        #[trigger] tiles@[j].position,
                    ) by {
                        assert(before_index.contains_key(before_cells[i].position));
                    }
                    if fills_grid(w, l, biome.tiles@) {
                        assert forall|i: int, j: int| visited(i, j, x as int, y + 1, l) implies tiles@[
                            #[trigger] cell_index(i, j, l)
                        ].position == grid_position(i, j) by {
                            if visited(i, j, x as int, y as int, l) {
                                lemma_visited_index(i, j, x as int, y as int, l);
                            }
                        }
                    }
                }
            }
            y = y + 1;
        }
        proof {
            lemma_next_column(x as int, length as int);
        }
        x = x + 1;
    }
    proof {
        let w = width as int;
        let l = length as int;
        if fills_grid(w, l, biome.tiles@) {
            assert forall|i: int, j: int| in_grid(i, j, w, l) implies {
                let cell = tiles@[#[trigger] cell_index(i, j, l)];
                &&& generated_cell(cell, i, j, w, l, biome.tiles@)
                &&& index@.contains_key(cell.position)
                &&& index@[cell.position] == cell.tile_type
            } by {
                assert(visited(i, j, w, 0, l));
                lemma_visited_index(i, j, w, 0, l);
                let k = cell_index(i, j, l);
                assert(index@.contains_key(tiles@[k].position));
            }
        }
    }
    GeneratedMap { tiles, index }
}

/// A rectangle of grid cells, corners included.
#[derive(Clone, Copy, Debug, PartialEq, Eq, Structural)]
pub struct Room {
    pub x1: i32,
    pub y1: i32,
    pub x2: i32,
    pub y2: i32,
}

/// The grid as rows of cells, with its rooms and, for each cell, whether it
/// was ever seen and whether it is in view now.
#[derive(Clone, Debug)]
pub struct WorldMap {
    pub tiles: Vec<TileType>,
    pub rooms: Vec<Room>,
    pub width: i32,
    pub height: i32,
    pub revealed_tiles: Vec<bool>,
    pub visible_tiles: Vec<bool>,
}

impl Default for WorldMap {
    /// A grid with no cell.
    fn default() -> (map: WorldMap)
        ensures
            map.tiles@.len() == 0,
            map.rooms@.len() == 0,
            map.width == 0,
            map.height == 0,
            map.revealed_tiles@.len() == 0,
            map.visible_tiles@.len() == 0,
    {
        WorldMap {
            tiles: Vec::new(),
            rooms: Vec::new(),
            width: 0,
            height: 0,
            revealed_tiles: Vec::new(),
            visible_tiles: Vec::new(),
        }
    }
}

} // verus!
