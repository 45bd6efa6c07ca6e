//! The rules of a real-time space strategy game: selecting ships, giving
//! them orders, and the decisions that the game's systems make each frame.
pub mod assets;
pub mod combat;
pub mod controls;
pub mod fleet;
pub mod list;
pub mod maps;
pub mod orders;
pub mod people;
pub mod resources;
pub mod selection;
pub mod ships;
pub mod star_system;
pub mod summary;
pub mod systems;
