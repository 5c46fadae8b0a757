//! Render planning core of a small real-time 3D engine.
//!
//! The crate decides, once per frame, what is uploaded to the GPU and which
//! render passes are recorded in which order. It never talks to a GPU itself:
//! every function maps plain values to plain values, and every contract is
//! proved. Floating-point values pass through as bit patterns.
//!
//! - [`assets`]: handles, the deferred load queue, the loaded models.
//! - [`instancing`]: where the matrices of each entity group go in the
//!   instance buffer of its model, and which range each draw reads.
//! - [`point_light`], [`directional_light`], [`lighting`]: lights, the block
//!   of each light and the uniform that gathers the lights of a frame.
//! - [`uniform`], [`words`], [`vertex`]: byte layouts.
//! - [`pass`], [`pipeline`], [`textures`], [`shader`]: the passes and what
//!   they ask of the GPU.
//! - [`frame`], [`wgpu_renderer`]: the order of a frame and its orchestrator.
//! - [`ui`]: the user-interface pass.
//! - [`model`], [`heightmap`], [`scene`], [`components`]: what a scene is
//!   made of.

pub mod assets;
pub mod components;
pub mod directional_light;
pub mod frame;
pub mod heightmap;
pub mod instancing;
pub mod lighting;
pub mod model;
pub mod pass;
pub mod pipeline;
pub mod point_light;
pub mod scene;
pub mod shader;
pub mod textures;
pub mod ui;
pub mod uniform;
pub mod vertex;
pub mod wgpu_renderer;
pub mod words;
