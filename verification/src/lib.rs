//! Source generation for the static registry tables of a Minecraft server:
//! world carvers, decorated pot patterns and armor trim materials.
//!
//! The library turns already-parsed registry data into the text of a Rust
//! module that declares one static per registry entry and a function that
//! registers them all. Reading directories and JSON files is left to the
//! caller.
pub mod source;
pub mod providers;
pub mod carvers;
pub mod file_names;
pub mod registry;
pub mod decorated_pot_patterns;
pub mod trim_materials;
pub mod readback;
