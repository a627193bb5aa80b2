//! The failures of the bring-up and their diagnostics.

use vstd::prelude::*;

verus! {

/// Why a step of the bring-up failed.
#[derive(Clone, Copy, Debug, PartialEq, Eq, Structural)]
pub enum GfxError {
    /// No compatible driver, or a required extension is unavailable.
    InstanceCreationError,
    /// No physical device was enumerated.
    NoDeviceAvailable,
    /// No queue family of the device advertises graphics capability.
    NoSuitableQueueFamily,
    /// The requested queues cannot be had from the device.
    DeviceOpenError,
    /// The window or its surface could not be created.
    SurfaceCreationError,
    /// Out of device memory, or the usage flags are invalid.
    AllocationError,
    /// The command buffer could not be recorded.
    RecordingError,
    /// Source and destination of a copy differ in size or lack transfer usage.
    IncompatibleBufferError,
    /// The queue rejected the work.
    SubmissionError,
    /// The fence did not signal before the deadline.
    TimeoutError,
    /// The device was lost while work was outstanding.
    DeviceLostError,
}

impl GfxError {
    /// The human-readable diagnostic of this failure.
    pub open spec fn diagnostic_text(self) -> Seq<char> {
        match self {
            GfxError::InstanceCreationError => "failed to create Vulkan instance"@,
            GfxError::NoDeviceAvailable => "No device available"@,
            GfxError::NoSuitableQueueFamily => "couldn't find a graphical queue family"@,
            GfxError::DeviceOpenError => "failed to create device"@,
            GfxError::SurfaceCreationError => "Failed to create Vulkan window"@,
            GfxError::AllocationError => "failed to create buffer"@,
            GfxError::RecordingError => "failed to record command buffer"@,
            GfxError::IncompatibleBufferError => "source and destination buffers are incompatible"@,
            GfxError::SubmissionError => "failed to submit command buffer"@,
            GfxError::TimeoutError => "timed out waiting for the device"@,
            GfxError::DeviceLostError => "device lost"@,
        }
    }

    /// The diagnostic to print before the process stops.
    pub fn diagnostic(&self) -> (s: &'static str)
        ensures
            s@ == self.diagnostic_text(),
    {
        match self {
            GfxError::InstanceCreationError => "failed to create Vulkan instance",
            GfxError::NoDeviceAvailable => "No device available",
            GfxError::NoSuitableQueueFamily => "couldn't find a graphical queue family",
            GfxError::DeviceOpenError => "failed to create device",
            GfxError::SurfaceCreationError => "Failed to create Vulkan window",
            GfxError::AllocationError => "failed to create buffer",
            GfxError::RecordingError => "failed to record command buffer",
            GfxError::IncompatibleBufferError => "source and destination buffers are incompatible",
            GfxError::SubmissionError => "failed to submit command buffer",
            GfxError::TimeoutError => "timed out waiting for the device",
            GfxError::DeviceLostError => "device lost",
        }
    }
}

} // verus!
