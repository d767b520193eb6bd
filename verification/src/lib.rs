//! Hardware-abstraction core for a fixed memory-mapped peripheral set on a
//! small bare-metal device.
//!
//! The crate provides three layers, leaf to root:
//!
//! - [`region`]: bounds-checked views over contiguous spans of memory-mapped
//!   storage, typed by element width;
//! - [`register`]: single memory-mapped control/status words with staged
//!   read-modify-write bit-field operations that commit in one store;
//! - [`bitmap`] and [`graphics`]: the pixel-addressable video modes built on
//!   regions and registers, with double buffering, and the context that keeps
//!   exactly one mode enabled at a time.
//!
//! Around the core stand [`colour`] (the packed pixel value type),
//! [`input`] (key-state polling queries), [`header`] (the cartridge header
//! and its complement rule) and [`helpers`] (drawing routines that consume
//! the video-mode contract).

pub mod bitmap;
pub mod colour;
pub mod graphics;
pub mod header;
pub mod helpers;
pub mod input;
pub mod memory;
pub mod region;
pub mod register;
