//! Sampler configuration: interpolation and boundary modes.

use vstd::prelude::*;
use crate::boundary::BoundaryMode;

verus! {

/// Interpolation mode for texture sampling.
#[derive(Debug, Clone, Copy, PartialEq, Eq, Structural)]
pub enum SampleMode {
    /// Nearest-neighbor sampling.
    Nearest,
    /// Linear interpolation.
    Linear,
}

/// Sampler configuration for texture reads.
#[derive(Debug, Clone)]
pub struct Sampler {
    /// Interpolation mode.
    pub mode: SampleMode,
    /// Boundary mode for out-of-range coordinates.
    pub boundary: BoundaryMode,
}

impl Sampler {
    /// Create a new sampler.
    pub fn new(mode: SampleMode, boundary: BoundaryMode) -> (s: Self)
        ensures
            s.mode == mode,
            s.boundary == boundary,
    {
        Self { mode, boundary }
    }

    /// Create a nearest-neighbor sampler with clamp boundary.
    pub fn nearest_clamp() -> (s: Self)
        ensures
            s.mode == SampleMode::Nearest,
            s.boundary == BoundaryMode::Clamp,
    {
        Self::new(SampleMode::Nearest, BoundaryMode::Clamp)
    }

    /// Create a linear interpolation sampler with wrap boundary.
    pub fn linear_wrap() -> (s: Self)
        ensures
            s.mode == SampleMode::Linear,
            s.boundary == BoundaryMode::Wrap,
    {
        Self::new(SampleMode::Linear, BoundaryMode::Wrap)
    }
}

impl Default for Sampler {
    /// The default sampler: nearest-neighbor with clamp boundary.
    fn default() -> (s: Self)
        ensures
            s.mode == SampleMode::Nearest,
            s.boundary == BoundaryMode::Clamp,
    {
        Self::nearest_clamp()
    }
}

} // verus!
