//! A falling-sand cellular automaton: the grid geometry, the cell and material
//! model, the integer hash family, the sand update rule and the per-frame
//! control decisions of the host application, all with verified contracts.

pub mod geometry;
pub mod material;
pub mod cell;
pub mod params;
pub mod grid;
pub mod compute;
pub mod workgroup;
pub mod hash;
pub mod render;
pub mod simulation;
pub mod application;
pub mod options;
pub mod frame;
