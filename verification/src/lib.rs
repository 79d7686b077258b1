pub mod config;
pub mod glyph;
pub mod grid;
pub mod mapper;
pub mod player;
pub mod renderer;
