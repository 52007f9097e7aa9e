//! Asset pipeline for cube-shaped tiles: a deduplicating resource cache,
//! document-to-domain conversion, mesh assembly, and a closed orientation
//! algebra over the six cube faces.

pub mod asset;
pub mod atlas;
pub mod axis;
pub mod coerce;
pub mod error;
pub mod face;
pub mod get;
pub mod load;
pub mod model;
pub mod node;
pub mod parse;
pub mod point;
pub mod resource;
pub mod scheme;
pub mod shell;
pub mod sides;
pub mod state;
pub mod text;
pub mod tile;
pub mod vertex;
