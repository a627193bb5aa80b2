//! The graphics instance and the platform extensions enabled on it.

use crate::driver::DriverOutcome;
use crate::error::GfxError;
use vstd::prelude::*;

verus! {

/// A set of instance extensions, one flag for each extension.
#[derive(Clone, Copy, Debug, PartialEq, Eq, Structural)]
pub struct InstanceExtensions {
    pub khr_surface: bool,
    pub khr_display: bool,
    pub khr_xlib_surface: bool,
    pub khr_xcb_surface: bool,
    pub khr_wayland_surface: bool,
    pub khr_android_surface: bool,
    pub khr_win32_surface: bool,
    pub ext_debug_utils: bool,
    pub mvk_ios_surface: bool,
    pub mvk_macos_surface: bool,
    pub mvk_moltenvk: bool,
    pub nn_vi_surface: bool,
    pub ext_swapchain_colorspace: bool,
    pub khr_get_physical_device_properties2: bool,
    pub khr_get_surface_capabilities2: bool,
}

impl InstanceExtensions {
    /// The empty set.
    pub open spec fn empty() -> InstanceExtensions {
        InstanceExtensions {
            khr_surface: false,
            khr_display: false,
            khr_xlib_surface: false,
            khr_xcb_surface: false,
            khr_wayland_surface: false,
            khr_android_surface: false,
            khr_win32_surface: false,
            ext_debug_utils: false,
            mvk_ios_surface: false,
            mvk_macos_surface: false,
            mvk_moltenvk: false,
            nn_vi_surface: false,
            ext_swapchain_colorspace: false,
            khr_get_physical_device_properties2: false,
            khr_get_surface_capabilities2: false,
        }
    }

    /// The set with no extension in it.
    pub fn none() -> (e: InstanceExtensions)
        ensures
            e == InstanceExtensions::empty(),
    {
        InstanceExtensions {
            khr_surface: false,
            khr_display: false,
            khr_xlib_surface: false,
            khr_xcb_surface: false,
            khr_wayland_surface: false,
            khr_android_surface: false,
            khr_win32_surface: false,
            ext_debug_utils: false,
            mvk_ios_surface: false,
            mvk_macos_surface: false,
            mvk_moltenvk: false,
            nn_vi_surface: false,
            ext_swapchain_colorspace: false,
            khr_get_physical_device_properties2: false,
            khr_get_surface_capabilities2: false,
        }
    }
}

/// The context of the graphics API, with the extensions it was created with.
#[derive(Clone, Copy, Debug, PartialEq, Eq, Structural)]
pub struct GraphicsInstance {
    pub extensions: InstanceExtensions,
}

impl GraphicsInstance {
    /// Whether a window surface can be made on this instance: the surface
    /// extension has to be enabled.
    pub open spec fn presentable(self) -> bool {
        self.extensions.khr_surface
    }

    /// Creates the instance with `required_extensions` enabled. Whether a
    /// compatible driver is there and offers them is the driver's to say.
    pub fn create(required_extensions: InstanceExtensions, driver: DriverOutcome) -> (r: Result<
        GraphicsInstance,
        GfxError,
    >)
        ensures
            r is Ok <==> driver == DriverOutcome::Accepted,
            match r {
                Ok(instance) => instance.extensions == required_extensions,
                Err(e) => e == GfxError::InstanceCreationError,
            },
    {
        match driver {
            DriverOutcome::Accepted => Ok(GraphicsInstance { extensions: required_extensions }),
            DriverOutcome::Rejected => Err(GfxError::InstanceCreationError),
        }
    }

    /// Whether a window surface can be made on this instance.
    pub fn can_present(&self) -> (b: bool)
        ensures
            b == self.presentable(),
    {
        self.extensions.khr_surface
    }
}

} // verus!
