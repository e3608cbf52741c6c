//! A colony simulation core: a tile grid with a position-keyed index, plants,
//! food and needs that change tick by tick, and the rules that turn an agent's
//! needs into one motivation and one task.
//!
//! Fractional quantities (growth, spoilage, nutrition, needs) are held as
//! integers in thousandths, so that every rule is exact. Nothing finer than
//! a thousandth is held: a caller that brings fractions has to round them,
//! so a rate of 0.0004 a tick arrives as none at all, and a freshness of
//! 0.12345 reads as 12.30%.

pub mod actor;
pub mod brain;
pub mod food;
pub mod index;
pub mod item;
pub mod menu;
pub mod motivation;
pub mod needs;
pub mod pathing;
pub mod plant;
pub mod position;
pub mod sprite;
pub mod status;
pub mod task;
pub mod text;
pub mod tile;
pub mod units;
pub mod viewshed;
pub mod world;
pub mod zone;

pub use actor::ActorType;
pub use brain::Brain;
pub use food::Food;
pub use index::{MapCell, TileHash};
pub use item::ItemType;
pub use menu::{GameState, MenuStates, SelectableType};
pub use motivation::{is_triggered, resolve_motivation, Motivation};
pub use pathing::Pathing;
pub use needs::{NeedsEntertainment, NeedsFood, NeedsSleep};
pub use plant::{ForageType, Harvest, Plant, PlantType};
pub use position::Position;
pub use sprite::sheet_index;
pub use status::Status;
pub use task::{dispatch_task, Task};
pub use text::{HoverNote, InfoPanel};
pub use tile::{Biome, TileType};
pub use units::WHOLE;
pub use viewshed::Viewshed;
pub use world::{cell_for, generate_map, GeneratedMap, Room, WorldMap};
pub use zone::{Zone, ZoneType};
