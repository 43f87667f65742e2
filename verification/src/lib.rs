//! A retained-mode renderer core: it turns frames (render passes, render
//! tasks, batches and cache deltas) into an ordered stream of device
//! commands, and keeps the caches and pools that live across frames.

pub mod units;
pub mod api;
pub mod device;
pub mod gpu_types;
pub mod util;
pub mod gpu_cache;
pub mod batch;
pub mod painting;
pub mod internal_types;
pub mod render_task;
pub mod renderer;
pub mod tiling;
pub mod texture_resolver;
pub mod shaders;
pub mod draw;
pub mod frame;
pub mod resources;
pub mod documents;
pub mod render;
pub mod messages;
pub mod maintenance;
pub mod pipelines;
pub mod profiler;
pub mod debug_server;
