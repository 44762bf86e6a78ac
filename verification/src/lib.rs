//! Backend-neutral GPU execution contracts: texture-format structure, render-state and
//! attachment descriptors, and the decisions of the private native realization.

pub mod attachment;
pub mod binding;
pub mod blend;
pub mod capabilities;
pub mod device_request;
pub mod diagnostics;
pub mod limits;
pub mod lowering;
pub mod native;
pub mod render_state;
pub mod shader_io;
pub mod texture_format;
pub mod texture_resource;
pub mod vertex;
