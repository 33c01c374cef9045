//! Verified core of the Fate renderer: configuration, pixel and texture
//! handling, input state machines and the integer decisions of the
//! Vulkan and ray-tracing front ends.

pub mod aabb;
pub mod bvh;
pub mod config;
pub mod frame;
pub mod gui;
pub mod image;
pub mod input;
pub mod material;
pub mod mikktspace;
pub mod model;
pub mod order;
pub mod source;
pub mod texture;
pub mod vulkan;
