//! A renderer that paints the meshes and textures of egui on a Vulkan device.
//!
//! The crate holds what the renderer decides: which objects it creates and
//! releases, what it copies where, which draw calls a frame is made of, and
//! which textures are known. It does not talk to the device. Each operation of
//! [`integration::Integration`] is a [`task::Task`]: a script of
//! [`command::Command`]s in which objects that do not exist yet go by the
//! number of their creation. Whoever drives the renderer performs the command
//! that is due, reports what came of it, and goes on until the task is
//! finished; operations that keep objects then take the finished task and store
//! the handles that the device gave them.
//!
//! - [`config`]: buffer sizes, the vertex layout, pipeline, image and sampler
//!   state
//! - [`command`], [`script`], [`task`]: commands, their order, and carrying
//!   them out
//! - [`texture`], [`word`]: pixels and words as the bytes that the device reads
//! - [`tables`]: what is known of each managed texture
//! - [`integration`]: the renderer
//! - [`laws`]: what holds of the renderer across its operations
pub mod command;
pub mod config;
pub mod integration;
pub mod laws;
pub mod script;
pub mod tables;
pub mod task;
pub mod texture;
pub mod word;
