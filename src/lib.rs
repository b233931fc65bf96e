//! Discrete core of an isometric tile renderer: actor orientation and stance,
//! sprite-frame selection, tile addressing and the terrain mesh index list.
pub mod direction;
pub mod isometric;
pub mod orientation;
pub mod terrain;
pub mod terrain_shape;
pub mod zombie;
