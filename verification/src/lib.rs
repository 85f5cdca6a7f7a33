//! A particle-field renderer core: swapchain planning, device and queue
//! selection, a fixed-point particle simulation, and the frame driver's
//! event logic, all with machine-checked contracts.

pub mod fixed;
pub mod particle;
pub mod swapchain;
pub mod display;
pub mod queue_family_indices;
pub mod device;
pub mod particles;
pub mod driver;
