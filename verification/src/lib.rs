//! A small record-management library: validated value types for bounded
//! numeric keys, non-empty names and closed category tags, an in-memory
//! repository keyed by number, and the four use-case operations over it.

pub mod create_pokemon;
pub mod delete_pokemon;
pub mod entities;
pub mod fetch_all_pokemon;
pub mod fetch_pokemon;
pub mod repository;
