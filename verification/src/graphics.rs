//! The graphics core: surface configuration, frame acquisition and the
//! recording of one frame's commands.

pub mod gpu;
pub mod render_encoder;
pub mod render_pass;
pub mod render_target;
pub mod surface_config;

pub use gpu::{
    AcquireOutcome, AcquirePhase, AcquireStep, BackendSet, DeviceRequest, FrameAcquisition,
    FrameError, Gpu, GpuView, LimitProfile, Platform,
};
pub use render_encoder::{CommandBuffer, RenderEncoder};
pub use render_pass::{ClearColor, DrawCall, PassCommand, PassView, RenderPass};
pub use render_target::{FrameView, SurfaceRenderTarget};
pub use surface_config::{SurfaceConfig, SurfaceConfigView};
