//! Verified rules for bringing up a GPU-capable window and running one
//! synchronised buffer copy on the device.
//!
//! The crate holds the decisions of that bring-up as plain-value functions with
//! contracts: which physical device and queue family are picked, which requests
//! are well formed, what a recorded copy does to device memory once its fence
//! has signalled, and how the window loop reacts to events. A driver program
//! performs the graphics and windowing calls and feeds their outcomes back in.

pub mod bootstrap;
pub mod buffer;
pub mod command;
pub mod device;
pub mod driver;
pub mod error;
pub mod event_loop;
pub mod instance;
pub mod report;
pub mod selector;
pub mod surface;
pub mod sync;
