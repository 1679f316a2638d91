//! Zero-copy bridge that shares GPU buffers between a UI renderer and a
//! compositor: the format table, buffer handles, device binding and
//! allocation requests, import planning and the step-by-step import session,
//! the single-slot buffer cache, the startup order and the per-frame draw
//! plan. The graphics driver calls themselves are made by the caller.

pub mod allocator;
pub mod cache;
pub mod compositing;
pub mod format;
pub mod gpu;
pub mod handle;
pub mod import;
pub mod pixels;
pub mod session;
pub mod shell;
pub mod startup;
