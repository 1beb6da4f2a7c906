//! A typed model of a game's action dump and registries that look its
//! entries up by display name or by identifier.

pub mod text;
pub mod schema;
pub mod registry;
pub mod database;
