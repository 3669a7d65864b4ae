//! Video frames and the surface element that displays them.
use vstd::prelude::*;

verus! {

/// Pixel format of a video frame.
#[derive(Clone, Copy, Debug, PartialEq, Eq, Structural)]
pub enum VideoFrameFormat {
    /// Biplanar YCbCr 4:2:0 (plane 0: Y, plane 1: CbCr interleaved).
    Nv12,
    /// 32-bit BGRA, single plane.
    Bgra,
}

/// The number of planes a frame of the format carries.
pub open spec fn planes_of(format: VideoFrameFormat) -> nat {
    match format {
        VideoFrameFormat::Nv12 => 2,
        VideoFrameFormat::Bgra => 1,
    }
}

/// Per-plane descriptor for a DMA-BUF video frame.
#[derive(Clone, Copy, Debug, PartialEq, Eq, Structural)]
pub struct DmaBufPlane {
    /// Byte offset from the start of the DMA-BUF to this plane.
    pub offset: u32,
    /// Byte stride (row pitch) for this plane.
    pub stride: u32,
    /// DRM format modifier.
    pub modifier: u64,
}

/// The pixel format of a CoreVideo pixel buffer: biplanar buffers are NV12,
/// all others BGRA.
pub open spec fn pixel_buffer_format_of(plane_count: usize) -> VideoFrameFormat {
    if plane_count >= 2 { VideoFrameFormat::Nv12 } else { VideoFrameFormat::Bgra }
}

/// A video frame. `Fd` is the shared handle of a DMA-BUF file descriptor,
/// `Px` a CoreVideo pixel buffer.
pub enum VideoFrame<Fd, Px> {
    /// A macOS pixel buffer, imported into the GPU without copying; its width,
    /// height and number of planes are read from it when the frame is made.
    CoreVideo {
        buffer: Px,
        width: u32,
        height: u32,
        plane_count: usize,
    },
    /// A Linux DMA-BUF, imported by mapping it into memory.
    DmaBuf {
        fd: Fd,
        /// Frame width in pixels.
        width: u32,
        /// Frame height in pixels.
        height: u32,
        format: VideoFrameFormat,
        /// Per-plane descriptors (offset, stride, modifier).
        planes: Vec<DmaBufPlane>,
    },
    /// CPU buffer (works on all platforms).
    Buffer {
        /// Pixel data for each plane.
        planes: Vec<Vec<u8>>,
        /// Byte stride (row pitch) for each plane.
        strides: Vec<u32>,
        width: u32,
        height: u32,
        format: VideoFrameFormat,
    },
}

impl<Fd, Px> VideoFrame<Fd, Px> {
    pub open spec fn spec_width(&self) -> u32 {
        match self {
            VideoFrame::CoreVideo { width, .. } => *width,
            VideoFrame::DmaBuf { width, .. } => *width,
            VideoFrame::Buffer { width, .. } => *width,
        }
    }

    pub open spec fn spec_height(&self) -> u32 {
        match self {
            VideoFrame::CoreVideo { height, .. } => *height,
            VideoFrame::DmaBuf { height, .. } => *height,
            VideoFrame::Buffer { height, .. } => *height,
        }
    }

    pub open spec fn spec_format(&self) -> VideoFrameFormat {
        match self {
            VideoFrame::CoreVideo { plane_count, .. } => pixel_buffer_format_of(*plane_count),
            VideoFrame::DmaBuf { format, .. } => *format,
            VideoFrame::Buffer { format, .. } => *format,
        }
    }

    /// Width of the video frame in pixels.
    pub fn width(&self) -> (r: u32)
        ensures
            r == self.spec_width(),
            self matches VideoFrame::CoreVideo { width, .. } ==> r == width,
            self matches VideoFrame::DmaBuf { width, .. } ==> r == width,
            self matches VideoFrame::Buffer { width, .. } ==> r == width,
    {
        match self {
            VideoFrame::CoreVideo { width, .. } => *width,
            VideoFrame::DmaBuf { width, .. } => *width,
            VideoFrame::Buffer { width, .. } => *width,
        }
    }

    /// Height of the video frame in pixels.
    pub fn height(&self) -> (r: u32)
        ensures
            r == self.spec_height(),
            self matches VideoFrame::CoreVideo { height, .. } ==> r == height,
            self matches VideoFrame::DmaBuf { height, .. } ==> r == height,
            self matches VideoFrame::Buffer { height, .. } ==> r == height,
    {
        match self {
            VideoFrame::CoreVideo { height, .. } => *height,
            VideoFrame::DmaBuf { height, .. } => *height,
            VideoFrame::Buffer { height, .. } => *height,
        }
    }

    /// Pixel format of the video frame.
    pub fn format(&self) -> (r: VideoFrameFormat)
        ensures
            r == self.spec_format(),
            self matches VideoFrame::DmaBuf { format, .. } ==> r == format,
            self matches VideoFrame::Buffer { format, .. } ==> r == format,
            self matches VideoFrame::CoreVideo { plane_count, .. } ==> (r == VideoFrameFormat::Nv12 <==> plane_count >= 2),
    {
        match self {
            VideoFrame::CoreVideo { plane_count, .. } => if *plane_count >= 2 {
                VideoFrameFormat::Nv12
            } else {
                VideoFrameFormat::Bgra
            },
            VideoFrame::DmaBuf { format, .. } => *format,
            VideoFrame::Buffer { format, .. } => *format,
        }
    }
}

/// How a frame is fitted into the bounds of its surface.
#[derive(Clone, Copy, Debug, PartialEq, Eq, Structural)]
pub enum ObjectFit {
    /// Stretched to fill the bounds.
    Fill,
    /// Scaled to fit inside the bounds, keeping its aspect ratio.
    Contain,
    /// Scaled to cover the bounds, keeping its aspect ratio.
    Cover,
    /// Like `Contain`, but never enlarged.
    ScaleDown,
    /// Drawn at its own size.
    Unscaled,
}

/// A surface element for displaying video frames; `S` is its style.
pub struct Surface<Fd, Px, S> {
    pub source: VideoFrame<Fd, Px>,
    pub object_fit: ObjectFit,
    pub style: S,
}

/// Create a new surface element from a video frame, fitted with `Contain`
/// and the default style.
pub fn surface<Fd, Px, S: Default>(source: VideoFrame<Fd, Px>) -> (r: Surface<Fd, Px, S>)
    ensures
        r.source == source,
        r.object_fit == ObjectFit::Contain,
        call_ensures(S::default, (), r.style),
{
    Surface { source, object_fit: ObjectFit::Contain, style: S::default() }
}

impl<Fd, Px, S> Surface<Fd, Px, S> {
    /// Set the object fit for the frame.
    pub fn object_fit(self, object_fit: ObjectFit) -> (r: Self)
        ensures
            r.object_fit == object_fit,
            r.source == self.source,
            r.style == self.style,
    {
        Surface { object_fit, ..self }
    }
}

/// A frame reports the size it was built with, and a DMA-BUF or CPU buffer
/// frame the pixel format it was built with; a CoreVideo frame is NV12
/// exactly when its pixel buffer has two or more planes, else BGRA.
pub proof fn lemma_frame_reports_what_it_holds<Fd, Px>(frame: VideoFrame<Fd, Px>)
    ensures
        frame matches VideoFrame::DmaBuf { width, height, format, .. } ==> frame.spec_width() == width
            && frame.spec_height() == height && frame.spec_format() == format,
        frame matches VideoFrame::Buffer { width, height, format, .. } ==> frame.spec_width() == width
            && frame.spec_height() == height && frame.spec_format() == format,
        frame matches VideoFrame::CoreVideo { width, height, plane_count, .. } ==> frame.spec_width()
            == width && frame.spec_height() == height && (frame.spec_format() == VideoFrameFormat::Nv12
            <==> plane_count >= 2),
{
}

} // verus!
