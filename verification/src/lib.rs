//! Verified core of a camera engine: the frame-handle queue shared by the
//! capture callback and the renderer, the choice of the camera source, the
//! render pipeline's handle accounting, the device and swap-chain settings,
//! and the controller lifecycles that decide what each public operation does.
//! Everything that talks to the operating system stays outside this crate.

pub mod types;
pub mod error;
pub mod frame_queue;
pub mod capture;
pub mod render;
pub mod monolithic;
pub mod engine;
pub mod laws;
