//! A small 2D scene renderer core: static meshes drawn many times per frame
//! with per-instance transforms, composited through an aspect-correcting view.
//!
//! This crate holds the CPU side of the instanced rendering pipeline. It
//! decides what every GPU buffer contains, byte for byte, and which commands a
//! frame records, and proves that the two stay consistent. A thin front end
//! owns the window and the device and carries the decisions out.
//!
//! Scalars that reach the GPU are 32-bit floating point numbers. The crate
//! never computes with them, so it carries each one as its 32-bit pattern in
//! a `u32` (what `to_bits` returns).

pub mod game;
pub mod gfx;
pub mod gpu;
pub mod player;
