//! Verified core of the Lattice native WebGPU/WebXR host runtime.

pub mod text;
pub mod gfx_map;
pub mod gpu_ids;
pub mod image_store;
pub mod draw_plan;
pub mod compute_cmds;
pub mod passes;
pub mod pipeline_plan;
pub mod render_pipeline;
pub mod xr_session;
pub mod input;
pub mod module_logic;
pub mod storage;
pub mod rtc_state;
pub mod runtime;
pub mod audio_graph;
pub mod gpu_state;
pub mod shader_text;
pub mod image_decode;
