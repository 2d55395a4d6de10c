//! Render-side logic of a tile-chunk renderer: pipeline keys and
//! specialisation, extraction of chunk data, bind-group caching, queueing of
//! draw items and the draw-command sequence.
pub mod key;
pub mod cache;
pub mod queue;
pub mod pipeline;
pub mod draw;
pub mod extract;
pub mod bind_group;
