use vstd::prelude::*;
use crate::sprite::sheet_index;

verus! {

/// The kinds of creature that can live in the colony.
#[derive(Clone, Copy, Debug, PartialEq, Eq, Hash, Structural)]
pub enum ActorType {
    Dwarf,
    ManCrazy,
    Elf,
    Teen,
    Ranger,
    Woman,
    Man,
    Man2,
    ManCave,
    Pig,
    Rat,
}

impl ActorType {
    /// The sprite sheet cell of each actor type.
    pub open spec fn spec_sprite_row_and_col(&self) -> (usize, usize) {
        match self {
            ActorType::Dwarf => (59, 13),
            ActorType::ManCrazy => (59, 15),
            ActorType::Elf => (59, 18),
            ActorType::Teen => (60, 11),
            ActorType::Ranger => (59, 22),
            ActorType::Woman => (60, 48),
            ActorType::Man => (66, 46),
            ActorType::Man2 => (60, 21),
            ActorType::ManCave => (60, 25),
            ActorType::Pig => (64, 0),
            ActorType::Rat => (64, 19),
        }
    }

    #[verifier::when_used_as_spec(spec_sprite_row_and_col)]
    pub fn sprite_row_and_col(&self) -> (cell: (usize, usize))
        ensures
            cell == self.spec_sprite_row_and_col(),
            cell.1 < 64,
    {
        match self {
            ActorType::Dwarf => (59, 13),
            ActorType::ManCrazy => (59, 15),
            ActorType::Elf => (59, 18),
            ActorType::Teen => (60, 11),
            ActorType::Ranger => (59, 22),
            ActorType::Woman => (60, 48),
            ActorType::Man => (66, 46),
            ActorType::Man2 => (60, 21),
            ActorType::ManCave => (60, 25),
            ActorType::Pig => (64, 0),
            ActorType::Rat => (64, 19),
        }
    }

    pub fn sprite_index(&self) -> (index: usize)
        ensures
            index == sheet_index(
                self.spec_sprite_row_and_col().0 as int,
                self.spec_sprite_row_and_col().1 as int,
            ),
            index / 64 == self.spec_sprite_row_and_col().0,
            index % 64 == self.spec_sprite_row_and_col().1,
    {
        let (row, col) = self.sprite_row_and_col();
        row * 64 + col
    }
}

} // verus!
