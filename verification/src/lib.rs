//! Tile maps for a tile-based handheld game: an image is cut into square
//! blocks, equal blocks share one index, and the game's movement rules are
//! decided against the resulting grid.

pub mod collision;
pub mod literal;
pub mod motion;
pub mod palette;
pub mod raster;
pub mod tiles;
