use vstd::prelude::*;

verus! {

/// A size in physical pixels.
#[derive(Clone, Copy, Debug, PartialEq, Eq, Structural)]
pub struct SurfaceSize {
    pub width: u32,
    pub height: u32,
}

/// What the presentation surface is configured with: its size in pixels and
/// how many frames may be queued ahead of the display.
#[derive(Clone, Copy, Debug, PartialEq, Eq, Structural)]
pub struct SurfaceConfig {
    pub width: u32,
    pub height: u32,
    pub desired_maximum_frame_latency: u32,
}

/// The configuration for a surface of the given size: that size, with at
/// most two frames queued.
pub open spec fn config_for(size: SurfaceSize) -> SurfaceConfig {
    SurfaceConfig { width: size.width, height: size.height, desired_maximum_frame_latency: 2 }
}

/// The size that the presentation surface currently has, and the
/// configuration that follows from it.
pub struct Viewport {
    size: SurfaceSize,
}

impl Viewport {
    /// The recorded size.
    pub closed spec fn spec_size(&self) -> SurfaceSize {
        self.size
    }

    /// A viewport of the window's initial size.
    pub fn new(size: SurfaceSize) -> (r: Viewport)
        ensures
            r.spec_size() == size,
    {
        Viewport { size }
    }

    /// The recorded size.
    pub fn size(&self) -> (r: SurfaceSize)
        ensures
            r == self.spec_size(),
    {
        self.size
    }

    /// The configuration to apply to the surface for the recorded size.
    pub fn configure_surface(&self) -> (r: SurfaceConfig)
        ensures
            r == config_for(self.spec_size()),
    {
        SurfaceConfig {
            width: self.size.width,
            height: self.size.height,
            desired_maximum_frame_latency: 2,
        }
    }

    /// Records a new size and gives the configuration to apply to the
    /// surface for it. A zero width or height is recorded as it is.
    pub fn resize(&mut self, new_size: SurfaceSize) -> (r: SurfaceConfig)
        ensures
            final(self).spec_size() == new_size,
            r == config_for(new_size),
    {
        self.size = new_size;
        self.configure_surface()
    }
}

/// After a resize, the surface is configured with the new width and height,
/// whatever size was recorded before.
pub proof fn lemma_resize_then_configure(new_size: SurfaceSize)
    ensures
        config_for(new_size).width == new_size.width,
        config_for(new_size).height == new_size.height,
{
}

} // verus!
