//! Settings of a bare render context: a surface configured at the
//! requested size, presented with or without vertical sync.
use vstd::prelude::*;

use crate::canvas::{surface_plan, surface_plan_for, SurfacePlan};
use crate::gpu::{default_backends, default_power_preference};

verus! {

/// How a render context presents frames.
#[derive(PartialEq, Eq, Structural, Clone, Copy, Debug)]
pub enum Presentation {
    /// wgpu's `PresentMode::AutoVsync`: wait for vertical sync.
    AutoVsync,
    /// wgpu's `PresentMode::AutoNoVsync`: do not wait for vertical sync.
    AutoNoVsync,
}

/// The presentation of a context with vertical sync on or off.
pub open spec fn presentation_for(vsync: bool) -> Presentation {
    if vsync {
        Presentation::AutoVsync
    } else {
        Presentation::AutoNoVsync
    }
}

/// Chooses how frames are presented: with vertical sync when it is on.
pub fn present_mode(vsync: bool) -> (mode: Presentation)
    ensures
        mode == presentation_for(vsync),
{
    if vsync {
        Presentation::AutoVsync
    } else {
        Presentation::AutoNoVsync
    }
}

/// Settings of a render context. Only the default value can be built: a
/// zero-sized surface, wgpu's default backends and power preference, and
/// no vertical sync.
pub struct Options {
    width: u32,
    height: u32,
    backends: wgpu::Backends,
    power_preference: wgpu::PowerPreference,
    vsync: bool,
}

impl Default for Options {
    /// A zero-sized surface, wgpu's default backends and power preference,
    /// and no vertical sync.
    fn default() -> (options: Self)
        ensures
            options.spec_width() == 0,
            options.spec_height() == 0,
            !options.spec_vsync(),
    {
        Options {
            width: 0,
            height: 0,
            backends: default_backends(),
            power_preference: default_power_preference(),
            vsync: false,
        }
    }
}

impl Options {
    /// Requested surface width.
    pub closed spec fn spec_width(&self) -> u32 {
        self.width
    }

    /// Requested surface height.
    pub closed spec fn spec_height(&self) -> u32 {
        self.height
    }

    /// Graphics backends wgpu may use.
    pub closed spec fn spec_backends(&self) -> wgpu::Backends {
        self.backends
    }

    /// Which kind of adapter to prefer.
    pub closed spec fn spec_power_preference(&self) -> wgpu::PowerPreference {
        self.power_preference
    }

    /// Whether frames wait for vertical sync.
    pub closed spec fn spec_vsync(&self) -> bool {
        self.vsync
    }

    /// Requested surface width; the surface is configured with it as it is.
    pub fn width(&self) -> (width: u32)
        ensures
            width == self.spec_width(),
    {
        self.width
    }

    /// Requested surface height; the surface is configured with it as it is.
    pub fn height(&self) -> (height: u32)
        ensures
            height == self.spec_height(),
    {
        self.height
    }

    /// Graphics backends wgpu may use.
    pub fn backends(&self) -> (backends: &wgpu::Backends)
        ensures
            *backends == self.spec_backends(),
    {
        &self.backends
    }

    /// Which kind of adapter to prefer.
    pub fn power_preference(&self) -> (preference: &wgpu::PowerPreference)
        ensures
            *preference == self.spec_power_preference(),
    {
        &self.power_preference
    }

    /// How the surface of a context with these settings is first
    /// configured: the requested size as it is, a render attachment with no
    /// extra view format, two frames of latency.
    pub fn surface_config(&self) -> (plan: SurfacePlan)
        ensures
            plan == surface_plan_for(self.spec_width(), self.spec_height(), None),
            plan.width == self.spec_width(),
            plan.height == self.spec_height(),
            plan.view_format is None,
    {
        surface_plan(self.width, self.height, None)
    }

    /// How frames of a context with these settings are presented.
    pub fn presentation(&self) -> (mode: Presentation)
        ensures
            mode == presentation_for(self.spec_vsync()),
    {
        present_mode(self.vsync)
    }
}

} // verus!
