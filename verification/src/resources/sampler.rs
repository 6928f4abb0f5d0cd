//! Samplers: how shaders read an image between and beyond its pixels.
use crate::driver::DriverCall;
use crate::error::Error;
use vstd::prelude::*;

verus! {

/// The driver's number for mipmaps that are blended.
pub const SAMPLER_MIPMAP_MODE_LINEAR: i32 = 1;

/// How a sampler reads between pixels.
#[derive(Debug, Copy, Clone, PartialEq, Eq, Structural)]
pub enum SamplerFilter {
    Linear,
    Nearest,
}

impl SamplerFilter {
    /// The driver's number for the filter.
    pub open spec fn spec_raw(self) -> i32 {
        match self {
            SamplerFilter::Linear => 1,
            SamplerFilter::Nearest => 0,
        }
    }

    /// The driver's number for the filter.
    #[verifier::when_used_as_spec(spec_raw)]
    pub fn raw(self) -> (raw: i32)
        ensures
            raw == self.spec_raw(),
    {
        match self {
            SamplerFilter::Linear => 1,
            SamplerFilter::Nearest => 0,
        }
    }
}

/// How a sampler reads beyond the edge of an image.
#[derive(Debug, Copy, Clone, PartialEq, Eq, Structural)]
pub enum SamplerWrapMode {
    Tile,
    Clamp,
    Mirror,
    Border,
}

impl SamplerWrapMode {
    /// The driver's number for the address mode.
    pub open spec fn spec_raw(self) -> i32 {
        match self {
            SamplerWrapMode::Tile => 0,
            SamplerWrapMode::Clamp => 2,
            SamplerWrapMode::Mirror => 1,
            SamplerWrapMode::Border => 3,
        }
    }

    /// The driver's number for the address mode.
    #[verifier::when_used_as_spec(spec_raw)]
    pub fn raw(self) -> (raw: i32)
        ensures
            raw == self.spec_raw(),
    {
        match self {
            SamplerWrapMode::Tile => 0,
            SamplerWrapMode::Clamp => 2,
            SamplerWrapMode::Mirror => 1,
            SamplerWrapMode::Border => 3,
        }
    }
}

/// What the driver is asked to create a sampler with. The level of detail is
/// not clamped: it runs from zero up.
#[derive(Debug, Copy, Clone, PartialEq, Eq, Structural)]
pub struct SamplerCreateInfo {
    pub address_mode_u: i32,
    pub address_mode_v: i32,
    pub address_mode_w: i32,
    pub anisotropy_enable: bool,
    pub min_filter: i32,
    pub mag_filter: i32,
    pub mipmap_mode: i32,
}

/// A sampler.
#[derive(Debug, PartialEq, Eq)]
pub struct Sampler {
    pub sampler: u64,
}

impl Sampler {
    /// What the driver is asked to create the sampler with: one filter for
    /// shrinking and enlarging, one address mode for all three axes, blended
    /// mipmaps, no anisotropy.
    pub fn create_info(filer: SamplerFilter, wrap_mode: SamplerWrapMode) -> (info:
        SamplerCreateInfo)
        ensures
            info == (SamplerCreateInfo {
                address_mode_u: wrap_mode.spec_raw(),
                address_mode_v: wrap_mode.spec_raw(),
                address_mode_w: wrap_mode.spec_raw(),
                anisotropy_enable: false,
                min_filter: filer.spec_raw(),
                mag_filter: filer.spec_raw(),
                mipmap_mode: SAMPLER_MIPMAP_MODE_LINEAR,
            }),
    {
        SamplerCreateInfo {
            address_mode_u: wrap_mode.raw(),
            address_mode_v: wrap_mode.raw(),
            address_mode_w: wrap_mode.raw(),
            anisotropy_enable: false,
            min_filter: filer.raw(),
            mag_filter: filer.raw(),
            mipmap_mode: SAMPLER_MIPMAP_MODE_LINEAR,
        }
    }

    /// The sampler that the driver created, or the error with which it
    /// refused.
    pub fn new(created: Result<u64, i32>) -> (sampler: Result<Sampler, Error>)
        ensures
            match created {
                Ok(handle) => sampler matches Ok(s) && s.sampler == handle,
                Err(code) => sampler matches Err(e) && e == (Error::Driver { code }),
            },
    {
        match created {
            Ok(handle) => Ok(Sampler { sampler: handle }),
            Err(code) => Err(Error::Driver { code }),
        }
    }

    /// Gives the sampler up: the call that destroys it.
    pub fn clean(&self) -> (call: DriverCall)
        ensures
            call == (DriverCall::DestroySampler { sampler: self.sampler }),
    {
        DriverCall::DestroySampler { sampler: self.sampler }
    }
}

} // verus!
