//! Verified core of a GPU-resident rendering engine for an interactive 3D
//! viewer.
//!
//! The library owns every decision the renderer makes: how many resources a
//! swapchain needs, how a texture upload and its mip chain are staged, which
//! memory barriers a layout transition requires, in what order draw commands
//! are recorded, and how the double-buffered frame loop advances.  All of it
//! is stated in contracts and proved.
//!
//! Talking to the graphics driver itself needs `unsafe` FFI, so the library
//! never performs an API call.  Instead each operation returns a *plan* made
//! of plain values (counts, offsets, flag bits, command lists) which a thin
//! unverified shell executes verbatim, and feeds outcomes (acquire results,
//! device limits, decoded pixels) back in as plain values.

pub mod barrier;
pub mod commands;
pub mod descriptor;
pub mod frame;
pub mod input;
pub mod matrix;
pub mod memory;
pub mod mipmap;
pub mod pipeline;
pub mod render_core;
pub mod structs;
pub mod swapchain;
pub mod texture;
pub mod types;
