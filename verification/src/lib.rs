//! A library for reading, editing and writing Dwarf Fortress graphics raw files.
pub mod text;
pub mod words;
pub mod ordering;
pub mod error;
pub mod tokens;
pub mod state;
pub mod items;
pub mod condition;
pub mod lines;
pub mod layer;
pub mod group;
pub mod layer_set;
pub mod shared;
pub mod gather;
pub mod creature;
pub mod tile;
pub mod statue;
pub mod graphics_file;
pub mod graphics;
pub mod copy;
pub mod editor;
pub mod fields;
pub mod laws;
pub mod condition_laws;
pub mod color_laws;
