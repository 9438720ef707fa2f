//! A verified core for a small stdin viewer: a scrolling log buffer with a
//! bounded index of line starts, a frame-time ring buffer for a performance
//! overlay, and the startup settings (window size, title, font) including the
//! CPU-cache description appended to the window title.

pub mod decimal;
pub mod lines;
pub mod log_buffer;
pub mod perf_graph;
pub mod startup;
