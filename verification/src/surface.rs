//! The surface that is presented to, and what is settled from its
//! capabilities: format, resolution, number of images.
use crate::driver::{DriverCall, Extent2D};
use crate::error::Error;
use vstd::prelude::*;

verus! {

/// The width that a surface reports where the swapchain sets its size.
pub const EXTENT_UNDEFINED: u32 = 0xffff_ffff;

/// A surface.
#[derive(Debug, PartialEq, Eq)]
pub struct Surface {
    pub raw: u64,
}

impl Surface {
    /// The surface that the window system created, or the error with which it
    /// refused.
    pub fn new(created: Result<u64, i32>) -> (surface: Result<Surface, Error>)
        ensures
            match created {
                Ok(handle) => surface matches Ok(s) && s.raw == handle,
                Err(code) => surface matches Err(e) && e == (Error::Driver { code }),
            },
    {
        match created {
            Ok(handle) => Ok(Surface { raw: handle }),
            Err(code) => Err(Error::Driver { code }),
        }
    }

    /// Gives the surface up: the call that destroys it.
    pub fn clean(&self) -> (call: DriverCall)
        ensures
            call == (DriverCall::DestroySurface { surface: self.raw }),
    {
        DriverCall::DestroySurface { surface: self.raw }
    }
}

/// A format and a colour space that the surface can show.
#[derive(Debug, Copy, Clone, PartialEq, Eq, Structural)]
pub struct SurfaceFormat {
    pub format: i32,
    pub color_space: i32,
}

/// What the surface can do, as the driver reports it.
#[derive(Debug, Copy, Clone, PartialEq, Eq, Structural)]
pub struct SurfaceCapabilities {
    pub min_image_count: u32,
    /// The most images of a swapchain, or zero where there is no limit.
    pub max_image_count: u32,
    pub current_extent: Extent2D,
    pub supported_transforms: u32,
    pub current_transform: u32,
}

/// What a swapchain for the surface is built on.
#[derive(Debug, Copy, Clone, PartialEq, Eq, Structural)]
pub struct SurfaceData {
    pub format: SurfaceFormat,
    pub resolution: Extent2D,
    pub capabilities: SurfaceCapabilities,
    pub desired_image_count: u32,
}

impl SurfaceData {
    /// The number of images to ask for: one more than the surface's minimum,
    /// but no more than its maximum where it has one.
    pub open spec fn spec_desired_image_count(capabilities: SurfaceCapabilities) -> int {
        if capabilities.max_image_count > 0 && capabilities.min_image_count + 1
            > capabilities.max_image_count {
            capabilities.max_image_count as int
        } else {
            capabilities.min_image_count + 1
        }
    }

    /// The resolution of the swapchain: the surface's own size, or `width` by
    /// `height` where the surface leaves the size to the swapchain.
    pub open spec fn spec_resolution(
        capabilities: SurfaceCapabilities,
        width: u32,
        height: u32,
    ) -> Extent2D {
        if capabilities.current_extent.width == EXTENT_UNDEFINED {
            Extent2D { width, height }
        } else {
            capabilities.current_extent
        }
    }

    /// Settles what a swapchain of `width` by `height` is built on: the first
    /// format that the surface offers, the resolution, and the number of
    /// images. Fails where the surface offers no format.
    pub fn new(
        formats: &Vec<SurfaceFormat>,
        capabilities: SurfaceCapabilities,
        width: u32,
        height: u32,
    ) -> (data: Result<SurfaceData, Error>)
        requires
            capabilities.min_image_count < u32::MAX,
        ensures
            formats@.len() == 0 ==> data == Err::<SurfaceData, Error>(Error::NoSurfaceFormat),
            formats@.len() > 0 ==> data == Ok::<SurfaceData, Error>(
                SurfaceData {
                    format: formats@[0],
                    resolution: SurfaceData::spec_resolution(capabilities, width, height),
                    capabilities,
                    desired_image_count: SurfaceData::spec_desired_image_count(capabilities) as u32,
                },
            ),
            SurfaceData::spec_desired_image_count(capabilities) <= u32::MAX,
    {
        if formats.len() == 0 {
            return Err(Error::NoSurfaceFormat);
        }
        let format = formats[0];
        let mut desired_count: u32 = capabilities.min_image_count + 1;
        if capabilities.max_image_count > 0 && desired_count > capabilities.max_image_count {
            desired_count = capabilities.max_image_count;
        }
        let resolution = if capabilities.current_extent.width == EXTENT_UNDEFINED {
            Extent2D { width, height }
        } else {
            capabilities.current_extent
        };
        Ok(SurfaceData { format, resolution, capabilities, desired_image_count: desired_count })
    }
}

} // verus!
