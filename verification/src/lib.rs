//! Lays a sequence of card images out on a paginated 3x3 grid of
//! physically sized cells, for printing.
//!
//! All physical lengths are integers in micrometers, so every margin,
//! offset and scale factor is computed exactly. The layout engine maps
//! each image, in input order, to a page, a grid cell and a placement
//! rectangle; the image normalizer reports the pixel dimensions of a
//! raw image buffer so the engine can derive exact scale factors.

pub mod config;
pub mod image_info;
pub mod layout;
pub mod plan;
pub mod deck;

