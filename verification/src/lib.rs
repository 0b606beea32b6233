//! Verified core of a set of systems-programming exercises: Vulkan version
//! packing, V4L2 four-character codes, the Brownian-motion particle
//! simulation run on the GPU, a bank-transfer simulation, a build-freshness
//! check, HTML tag statistics and the Vulkan device-selection rules.

pub mod bank;
pub mod chat;
pub mod device_select;
pub mod fourcc;
pub mod rebuild;
pub mod simulation;
pub mod tags;
pub mod vulkan_version;
pub mod watermark;
pub mod xorshift;
