//! A radio assembled from blocks: the catalogue of block kinds, the graph
//! that an editor builds from them, the compiler that turns the graph into a
//! registered and connected flowgraph, and the bridge that retunes the
//! pipeline while it runs and stops it.

pub mod blocks;
pub mod consts;
pub mod declared;
pub mod engine;
pub mod graph;
pub mod laws;
pub mod params;
pub mod radio;
pub mod ui;
pub mod validate;
pub mod value;
