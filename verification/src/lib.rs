//! Depth-peeled screen-space transmission.
#![allow(unused_imports)]

pub mod frame_laws;
pub mod mesh_layout;
pub mod mesh_layout_laws;
pub mod pass;
pub mod pass_laws;
pub mod phase;
pub mod phase_laws;
pub mod pipeline;
pub mod pipeline_laws;
pub mod queue;
pub mod queue_laws;
pub mod sampler;
pub mod sampler_laws;
pub mod settings;
pub mod settings_laws;
pub mod textures;
pub mod textures_laws;
pub mod transform;
pub mod transform_laws;
pub mod view_laws;
pub mod views;
