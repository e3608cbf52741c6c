use vstd::prelude::*;

verus! {

#[derive(Clone, Copy, Debug, PartialEq, Eq, Hash, Structural)]
pub enum GameState {
    InGame,
    MainMenu,
    Paused,
}

/// The menu tabs, in the order in which they are shown.
#[derive(Clone, Copy, Debug, PartialEq, Eq, Structural)]
pub enum MenuStates {
    Home,
    Tasks,
    Farm,
    Zone,
    Build,
    Craft,
}

impl MenuStates {
    /// The place of a tab in the order of display, counted from zero.
    pub open spec fn spec_to_index(&self) -> usize {
        match self {
            MenuStates::Home => 0,
            MenuStates::Tasks => 1,
            MenuStates::Farm => 2,
            MenuStates::Zone => 3,
            MenuStates::Build => 4,
            MenuStates::Craft => 5,
        }
    }

    #[verifier::when_used_as_spec(spec_to_index)]
    pub fn to_index(&self) -> (index: usize)
        ensures
            index == self.spec_to_index(),
            index < 6,
    {
        match self {
            MenuStates::Home => 0,
            MenuStates::Tasks => 1,
            MenuStates::Farm => 2,
            MenuStates::Zone => 3,
            MenuStates::Build => 4,
            MenuStates::Craft => 5,
        }
    }

    /// No two tabs share a place.
    pub proof fn lemma_index_identifies(a: MenuStates, b: MenuStates)
        requires
            a.spec_to_index() == b.spec_to_index(),
        ensures
            a == b,
    {
    }
}

/// What a click selects, or the mode it is made in.
#[derive(Clone, Copy, Debug, PartialEq, Eq, Structural)]
pub enum SelectableType {
    Choppable,
    Constructable,
    Foragable,
    Gatherable,
    Harvestable,
    Mineable,
    Nothing,
    Unselecting,
    Unzoning,
    Zoning,
}

} // verus!
