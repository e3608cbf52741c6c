use vstd::prelude::*;
use crate::position::Position;

verus! {

/// What an agent sees: the positions in view, how far it can see, and
/// whether the view is out of date because the agent has moved.
#[derive(Clone, Debug)]
pub struct Viewshed {
    pub visible_tiles: Vec<Position>,
    pub range: i32,
    pub dirty: bool,
}

} // verus!
