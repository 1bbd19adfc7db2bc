use vstd::prelude::*;

verus! {

/// Width and height of a video stream, in pixels.
#[derive(Clone, Copy, Debug, PartialEq, Eq, Structural)]
pub struct VideoDimensions {
    pub width: u32,
    pub height: u32,
}

/// A GPU texture shared across processes: the NT handle that opens it and
/// its size in pixels.
#[derive(Clone, Copy, Debug, PartialEq, Eq, Structural)]
pub struct FrameGpuShared {
    pub share_handle: u64,
    pub width: u32,
    pub height: u32,
}

impl VideoDimensions {
    /// The dimensions `width` x `height`.
    pub fn new(width: u32, height: u32) -> (d: VideoDimensions)
        ensures
            d.width == width,
            d.height == height,
    {
        VideoDimensions { width, height }
    }
}

impl FrameGpuShared {
    /// The shared texture opened by `share_handle`, sized `width` x `height`.
    pub fn new(share_handle: u64, width: u32, height: u32) -> (f: FrameGpuShared)
        ensures
            f.share_handle == share_handle,
            f.width == width,
            f.height == height,
    {
        FrameGpuShared { share_handle, width, height }
    }

    /// The size of the shared texture.
    pub fn dimensions(&self) -> (d: VideoDimensions)
        ensures
            d.width == self.width,
            d.height == self.height,
    {
        VideoDimensions { width: self.width, height: self.height }
    }
}

} // verus!
