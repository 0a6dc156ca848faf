//! Core of a GPU frame pipeline: the decision and bookkeeping logic that
//! drives the repeating cycle of acquiring a presentable image, recording
//! draw commands, submitting them, and presenting the result, with a bounded
//! number of frames in flight between the CPU and the GPU.
//!
//! The GPU itself (device, queue, window surface) is an external collaborator.
//! Everything here works on plain values: the caller performs each device
//! call and hands the outcome back to the state machine in [`renderer`].

pub mod commands;
pub mod driver;
pub mod frame;
pub mod layout;
pub mod mock;
pub mod renderer;
pub mod resize;
pub mod swapchain;
pub mod timeline;
