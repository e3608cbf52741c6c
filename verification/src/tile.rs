use vstd::prelude::*;
use crate::sprite::sheet_index;

verus! {

/// Terrain and wall variants of a grid cell.
#[derive(Clone, Copy, Debug, PartialEq, Eq, Hash, Structural)]
pub enum TileType {
    Grass,
    Dirt,
    Gravel,
    Sand,
    Stone,
    Water,
    WallBrick,
    WallGame,
    WallMetal,
    WallStone,
    WallWood,
}

impl TileType {
    /// The sprite sheet cell of each tile type.
    pub open spec fn spec_sprite_row_and_col(&self) -> (usize, usize) {
        match self {
            TileType::Grass => (9, 11),
            TileType::Dirt => (4, 1),
            TileType::Gravel => (7, 42),
            TileType::Sand => (7, 42),
            TileType::Stone => (3, 61),
            TileType::Water => (5, 12),
            TileType::WallGame => (7, 20),
            TileType::WallStone => (7, 21),
            TileType::WallWood => (7, 22),
            TileType::WallBrick => (4, 10),
            TileType::WallMetal => (7, 24),
        }
    }

    /// A wall blocks movement; every other tile is passable.
    pub open spec fn spec_is_wall(&self) -> bool {
        *self is WallGame || *self is WallStone || *self is WallWood || *self is WallBrick
            || *self is WallMetal
    }

    #[verifier::when_used_as_spec(spec_sprite_row_and_col)]
    pub fn sprite_row_and_col(&self) -> (cell: (usize, usize))
        ensures
            cell == self.spec_sprite_row_and_col(),
            cell.1 < 64,
    {
        match self {
            TileType::Grass => (9, 11),
            TileType::Dirt => (4, 1),
            TileType::Gravel => (7, 42),
            TileType::Sand => (7, 42),
            TileType::Stone => (3, 61),
            TileType::Water => (5, 12),
            TileType::WallGame => (7, 20),
            TileType::WallStone => (7, 21),
            TileType::WallWood => (7, 22),
            TileType::WallBrick => (4, 10),
            TileType::WallMetal => (7, 24),
        }
    }

    pub fn sprite_index(&self) -> (index: usize)
        ensures
            index == sheet_index(
                self.spec_sprite_row_and_col().0 as int,
                self.spec_sprite_row_and_col().1 as int,
            ),
            index / 64 == self.spec_sprite_row_and_col().0,
            index % 64 == self.spec_sprite_row_and_col().1,
    {
        let (row, col) = self.sprite_row_and_col();
        row * 64 + col
    }

    #[verifier::when_used_as_spec(spec_is_wall)]
    pub fn is_wall(&self) -> (wall: bool)
        ensures
            wall == self.spec_is_wall(),
    {
        matches!(
            self,
            TileType::WallGame | TileType::WallStone | TileType::WallWood | TileType::WallBrick
                | TileType::WallMetal
        )
    }
}

/// The tile types that may fill the inside of a generated grid.
#[derive(Clone, Debug)]
pub struct Biome {
    pub tiles: Vec<TileType>,
}

} // verus!
