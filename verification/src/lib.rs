//! Planning and bookkeeping for a GPU frame loop: what to upload, what to record
//! each frame, and how the presentation surface follows the window.

pub mod bind;
pub mod encoding;
pub mod frame;
pub mod orchestrator;
pub mod pipeline;
pub mod resources;
pub mod scene;
pub mod shader;
pub mod startup;
pub mod surface;
pub mod texture;
pub mod usage;
pub mod vertex;
