use std::collections::HashMap;
use vstd::prelude::*;
use vstd::set_lib::lemma_map_size;
use vstd::std_specs::hash::*;
use crate::position::Position;
use crate::tile::TileType;

verus! {

/// One generated cell: where it lies and what it is made of.
#[derive(Clone, Copy, Debug, PartialEq, Eq, Structural)]
pub struct MapCell {
    pub position: Position,
    pub tile_type: TileType,
}

/// The position-to-tile lookup of the world. Its view is the map from each
/// known position to the tile type there.
#[derive(Debug)]
pub struct TileHash {
    hash: HashMap<u128, TileType>,
}

/// Each coordinate, shifted to be non-negative, takes 32 bits of the key.
spec fn spec_key(p: Position) -> u128 {
    ((p.x + 0x8000_0000) * 0x1_0000_0000_0000_0000 + (p.y + 0x8000_0000) * 0x1_0000_0000 + (p.z
        + 0x8000_0000)) as u128
}

spec fn spec_position(k: u128) -> Position {
    Position {
        x: (k / 0x1_0000_0000_0000_0000 - 0x8000_0000) as i32,
        y: ((k / 0x1_0000_0000) % 0x1_0000_0000 - 0x8000_0000) as i32,
        z: (k % 0x1_0000_0000 - 0x8000_0000) as i32,
    }
}

proof fn lemma_key_round_trip(p: Position)
    ensures
        spec_position(spec_key(p)) == p,
{
    let a = p.x + 0x8000_0000;
    let b = p.y + 0x8000_0000;
    let c = p.z + 0x8000_0000;
    let k = a * 0x1_0000_0000_0000_0000 + b * 0x1_0000_0000 + c;
    assert(0 <= k < 0x1_0000_0000_0000_0000_0000_0000);
    assert(k % 0x1_0000_0000 == c);
    assert(k / 0x1_0000_0000 == a * 0x1_0000_0000 + b);
    assert((k / 0x1_0000_0000) % 0x1_0000_0000 == b);
    assert(k / 0x1_0000_0000_0000_0000 == a);
}

proof fn lemma_key_injective(p: Position, q: Position)
    ensures
        spec_key(p) == spec_key(q) <==> p == q,
{
    lemma_key_round_trip(p);
    lemma_key_round_trip(q);
}

fn key_of(p: Position) -> (k: u128)
    ensures
        k == spec_key(p),
{
    let x: u128 = (p.x as i64 + 0x8000_0000) as u128;
    let y: u128 = (p.y as i64 + 0x8000_0000) as u128;
    let z: u128 = (p.z as i64 + 0x8000_0000) as u128;
    x * 0x1_0000_0000_0000_0000 + y * 0x1_0000_0000 + z
}

/// The map that results from recording the cells one after the other: where
/// a position occurs twice, the later cell stays.
pub open spec fn map_of_cells(cells: Seq<MapCell>) -> Map<Position, TileType>
    decreases cells.len(),
{
    if cells.len() == 0 {
        Map::empty()
    } else {
        map_of_cells(cells.drop_last()).insert(cells.last().position, cells.last().tile_type)
    }
}

impl View for TileHash {
    type V = Map<Position, TileType>;

    closed spec fn view(&self) -> Map<Position, TileType> {
        Map::new(
            |p: Position| self.hash@.contains_key(spec_key(p)),
            |p: Position| self.hash@[spec_key(p)],
        )
    }
}

impl TileHash {
    /// Every stored key stands for a position.
    #[verifier::type_invariant]
    spec fn wf(&self) -> bool {
        forall|k: u128| #[trigger] self.hash@.contains_key(k) ==> spec_key(spec_position(k)) == k
    }

    /// An index that knows no cell.
    pub fn new() -> (index: TileHash)
        ensures
            index@ == Map::<Position, TileType>::empty(),
    {
        let index = TileHash { hash: HashMap::new() };
        assert(index@ =~= Map::<Position, TileType>::empty());
        index
    }

    /// Records `tile_type` at `position`, replacing what was there.
    pub fn insert(&mut self, position: Position, tile_type: TileType) -> (previous: Option<TileType>)
        ensures
            final(self)@ == old(self)@.insert(position, tile_type),
            previous == if old(self)@.contains_key(position) {
                Some(old(self)@[position])
            } else {
                None
            },
    {
        broadcast use group_hash_axioms;

        let k = key_of(position);
        proof {
            use_type_invariant(&*self);
            lemma_key_round_trip(position);
        }
        // The table is lifted out while it changes, so that `self` is whole
        // at every step.
        let mut hash: HashMap<u128, TileType> = HashMap::new();
        std::mem::swap(&mut self.hash, &mut hash);
        let previous = hash.insert(k, tile_type);
        std::mem::swap(&mut self.hash, &mut hash);
        proof {
            assert forall|q: Position| spec_key(q) == k <==> q == position by {
                lemma_key_injective(q, position);
            }
            assert(self@ =~= old(self)@.insert(position, tile_type));
        }
        previous
    }

    /// The tile type at `position`, if the index knows that cell.
    pub fn lookup(&self, position: Position) -> (found: Option<TileType>)
        ensures
            found == if self@.contains_key(position) {
                Some(self@[position])
            } else {
                None
            },
    {
        broadcast use group_hash_axioms;

        let k = key_of(position);
        match self.hash.get(&k) {
            Some(tile_type) => Some(*tile_type),
            None => None,
        }
    }

    /// The number of cells the index knows.
    pub fn len(&self) -> (n: usize)
        ensures
            self@.dom().finite(),
            n == self@.dom().len(),
    {
        broadcast use group_hash_axioms;

        proof {
            use_type_invariant(self);
            let keys = self.hash@.dom();
            let decode = |k: u128| spec_position(k);
            assert(vstd::relations::injective_on(decode, keys));
            assert(keys.map(decode) =~= self@.dom()) by {
                assert forall|p: Position| self@.dom().contains(p) implies keys.map(
                    decode,
                ).contains(p) by {
                    lemma_key_round_trip(p);
                    assert(keys.contains(spec_key(p)) && decode(spec_key(p)) == p);
                }
            }
            lemma_map_size(keys, self@.dom(), decode);
        }
        self.hash.len()
    }

    /// Builds the index from cells that already exist, in the order given.
    /// For the cells that a generation pass handed out, the result holds
    /// what that pass's own index holds.
    pub fn from_tiles(tiles: &Vec<MapCell>) -> (index: TileHash)
        ensures
            index@ == map_of_cells(tiles@),
    {
        let mut index = TileHash::new();
        let mut i: usize = 0;
        while i < tiles.len()
            invariant
                i <= tiles.len(),
                index@ == map_of_cells(tiles@.subrange(0, i as int)),
            decreases tiles.len() - i,
        {
            let cell = tiles[i];
            index.insert(cell.position, cell.tile_type);
            proof {
                assert(tiles@.subrange(0, i + 1).drop_last() =~= tiles@.subrange(0, i as int));
            }
            i = i + 1;
        }
        proof {
            assert(tiles@.subrange(0, tiles.len() as int) =~= tiles@);
        }
        index
    }
}

} // verus!
