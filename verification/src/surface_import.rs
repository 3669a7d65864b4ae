//! Importing a video frame into GPU textures: which textures to create, what
//! to upload into each, and which byte ranges of a DMA-BUF to read. The GPU
//! and memory-mapping calls themselves are the caller's.
use crate::surface::{pixel_buffer_format_of, planes_of, DmaBufPlane, VideoFrame, VideoFrameFormat};
use vstd::prelude::*;

verus! {

/// Texel format of an imported plane.
#[derive(Clone, Copy, Debug, PartialEq, Eq, Structural)]
pub enum TextureFormat {
    /// One 8-bit channel (luma).
    R8Unorm,
    /// Two 8-bit channels (interleaved chroma).
    Rg8Unorm,
    /// Four 8-bit channels: the texture of a BGRA frame.
    Rgba8Unorm,
}

/// An upload of one frame plane into a texture.
#[derive(Clone, Copy, Debug, PartialEq, Eq, Structural)]
pub struct TextureUpload {
    /// Index of the source plane.
    pub plane: usize,
    /// Byte stride of the source rows.
    pub bytes_per_row: u32,
}

/// A 2D texture to create (one mip level, one sample, sampled by shaders).
#[derive(Clone, Copy, Debug)]
pub struct TexturePlan {
    pub label: &'static str,
    pub width: u32,
    pub height: u32,
    pub format: TextureFormat,
    /// Whether the texture is also a copy destination.
    pub copy_dst: bool,
    /// The data written into it, if any.
    pub upload: Option<TextureUpload>,
}

/// The two textures that a frame becomes: luma (or the whole BGRA image) and
/// chroma (a 1x1 placeholder for BGRA, so that bind groups stay compatible).
#[derive(Clone, Copy, Debug)]
pub struct SurfacePlan {
    pub y: TexturePlan,
    pub cbcr: TexturePlan,
    pub format: VideoFrameFormat,
}

/// The plan of a CPU buffer frame with the given row strides.
pub open spec fn buffer_plan(strides: Seq<u32>, width: u32, height: u32, format: VideoFrameFormat) -> SurfacePlan {
    match format {
        VideoFrameFormat::Nv12 => SurfacePlan {
            y: TexturePlan {
                label: "surface_y",
                width,
                height,
                format: TextureFormat::R8Unorm,
                copy_dst: true,
                upload: Some(TextureUpload { plane: 0, bytes_per_row: strides[0] }),
            },
            cbcr: TexturePlan {
                label: "surface_cbcr",
                width: width / 2,
                height: height / 2,
                format: TextureFormat::Rg8Unorm,
                copy_dst: true,
                upload: Some(TextureUpload { plane: 1, bytes_per_row: strides[1] }),
            },
            format,
        },
        VideoFrameFormat::Bgra => SurfacePlan {
            y: TexturePlan {
                label: "surface_bgra",
                width,
                height,
                format: TextureFormat::Rgba8Unorm,
                copy_dst: true,
                upload: Some(TextureUpload { plane: 0, bytes_per_row: strides[0] }),
            },
            cbcr: TexturePlan {
                label: "surface_dummy_cbcr",
                width: 1,
                height: 1,
                format: TextureFormat::Rg8Unorm,
                copy_dst: false,
                upload: None,
            },
            format,
        },
    }
}

/// The textures to create for a CPU buffer frame: NV12 gives a full-size luma
/// texture and a half-size chroma texture, BGRA one full-size texture and a
/// placeholder.
pub fn import_buffer_plan(strides: &Vec<u32>, width: u32, height: u32, format: VideoFrameFormat) -> (r: SurfacePlan)
    requires
        strides.len() >= planes_of(format),
    ensures
        r == buffer_plan(strides@, width, height, format),
{
    match format {
        VideoFrameFormat::Nv12 => SurfacePlan {
            y: TexturePlan {
                label: "surface_y",
                width,
                height,
                format: TextureFormat::R8Unorm,
                copy_dst: true,
                upload: Some(TextureUpload { plane: 0, bytes_per_row: strides[0] }),
            },
            cbcr: TexturePlan {
                label: "surface_cbcr",
                width: width / 2,
                height: height / 2,
                format: TextureFormat::Rg8Unorm,
                copy_dst: true,
                upload: Some(TextureUpload { plane: 1, bytes_per_row: strides[1] }),
            },
            format,
        },
        VideoFrameFormat::Bgra => SurfacePlan {
            y: TexturePlan {
                label: "surface_bgra",
                width,
                height,
                format: TextureFormat::Rgba8Unorm,
                copy_dst: true,
                upload: Some(TextureUpload { plane: 0, bytes_per_row: strides[0] }),
            },
            cbcr: TexturePlan {
                label: "surface_dummy_cbcr",
                width: 1,
                height: 1,
                format: TextureFormat::Rg8Unorm,
                copy_dst: false,
                upload: None,
            },
            format,
        },
    }
}

/// A byte range of a mapped DMA-BUF that holds one plane.
#[derive(Clone, Copy, Debug, PartialEq, Eq, Structural)]
pub struct PlaneRegion {
    pub offset: usize,
    pub len: usize,
    /// Byte stride of the plane's rows.
    pub stride: u32,
}

/// How much of a DMA-BUF to map, and where each plane lies in it.
pub struct DmaBufMapping {
    pub map_len: usize,
    pub regions: Vec<PlaneRegion>,
}

/// The rows of a plane of `rows` rows: `stride * rows` bytes from `offset`.
pub open spec fn plane_end(p: DmaBufPlane, rows: u32) -> int {
    p.offset + p.stride * rows
}

/// The number of rows of each plane: all of them for luma (or BGRA), half for
/// NV12 chroma.
pub open spec fn plane_rows(height: u32, plane: int) -> u32 {
    if plane == 0 { height } else { height / 2 }
}

/// Whether the plane's byte range can be computed in 32 bits.
pub open spec fn plane_fits(p: DmaBufPlane, rows: u32) -> bool {
    p.stride * rows <= u32::MAX && plane_end(p, rows) <= u32::MAX
}

/// Whether all byte ranges of the frame can be computed in 32 bits.
pub open spec fn mapping_fits(planes: Seq<DmaBufPlane>, height: u32, format: VideoFrameFormat) -> bool {
    match format {
        VideoFrameFormat::Nv12 => plane_fits(planes[0], height) && plane_fits(planes[1], height / 2),
        VideoFrameFormat::Bgra => plane_fits(planes[0], height),
    }
}

/// Compute how much of a DMA-BUF to map (the furthest end of its planes) and
/// the byte range of each plane. `None` when a range does not fit in 32 bits,
/// where the arithmetic overflows.
pub fn dmabuf_mapping(planes: &Vec<DmaBufPlane>, height: u32, format: VideoFrameFormat) -> (r: Option<DmaBufMapping>)
    requires
        planes.len() >= planes_of(format),
    ensures
        r is None <==> !mapping_fits(planes@, height, format),
        r matches Some(m) ==> {
            &&& m.regions@.len() == planes_of(format)
            &&& forall|i: int| 0 <= i < m.regions@.len() ==> {
                let p = planes@[i];
                let rows = plane_rows(height, i);
                &&& #[trigger] m.regions@[i].offset == p.offset
                &&& m.regions@[i].len == p.stride * rows
                &&& m.regions@[i].stride == p.stride
                &&& m.regions@[i].offset + m.regions@[i].len <= m.map_len
            }
            &&& m.map_len == match format {
                VideoFrameFormat::Nv12 => {
                    let y_end = plane_end(planes@[0], height);
                    let cbcr_end = plane_end(planes@[1], height / 2);
                    if y_end < cbcr_end { cbcr_end } else { y_end }
                },
                VideoFrameFormat::Bgra => plane_end(planes@[0], height),
            }
        },
{
    let y = planes[0];
    let y_len = match y.stride.checked_mul(height) {
        Some(n) => n,
        None => return None,
    };
    let y_end = match y.offset.checked_add(y_len) {
        Some(n) => n,
        None => return None,
    };
    let mut regions: Vec<PlaneRegion> = Vec::new();
    regions.push(PlaneRegion { offset: y.offset as usize, len: y_len as usize, stride: y.stride });
    match format {
        VideoFrameFormat::Nv12 => {
            let cbcr = planes[1];
            let cbcr_rows = height / 2;
            let cbcr_len = match cbcr.stride.checked_mul(cbcr_rows) {
                Some(n) => n,
                None => return None,
            };
            let cbcr_end = match cbcr.offset.checked_add(cbcr_len) {
                Some(n) => n,
                None => return None,
            };
            regions.push(PlaneRegion { offset: cbcr.offset as usize, len: cbcr_len as usize, stride: cbcr.stride });
            let map_len = if y_end < cbcr_end { cbcr_end } else { y_end };
            Some(DmaBufMapping { map_len: map_len as usize, regions })
        },
        VideoFrameFormat::Bgra => Some(DmaBufMapping { map_len: y_end as usize, regions }),
    }
}

/// The frame shown in place of a DMA-BUF that could not be mapped: one
/// black-transparent BGRA pixel.
pub fn placeholder_frame<Fd, Px>() -> (r: VideoFrame<Fd, Px>)
    ensures
        r matches VideoFrame::Buffer { planes, strides, width, height, format } && {
            &&& planes@.len() == 1
            &&& planes@[0]@ == seq![0u8, 0u8, 0u8, 0u8]
            &&& strides@ == seq![4u32]
            &&& width == 1
            &&& height == 1
            &&& format == VideoFrameFormat::Bgra
        },
{
    let mut pixel: Vec<u8> = Vec::new();
    pixel.push(0u8);
    pixel.push(0u8);
    pixel.push(0u8);
    pixel.push(0u8);
    let mut planes: Vec<Vec<u8>> = Vec::new();
    planes.push(pixel);
    let mut strides: Vec<u32> = Vec::new();
    strides.push(4u32);
    proof {
        assert(planes@[0]@ =~= seq![0u8, 0u8, 0u8, 0u8]);
        assert(strides@ =~= seq![4u32]);
    }
    VideoFrame::Buffer { planes, strides, width: 1, height: 1, format: VideoFrameFormat::Bgra }
}

/// The pixel format of a CoreVideo pixel buffer: biplanar buffers are NV12,
/// all others BGRA.
pub fn pixel_buffer_format(plane_count: usize) -> (r: VideoFrameFormat)
    ensures
        r == pixel_buffer_format_of(plane_count),
        r == VideoFrameFormat::Nv12 <==> plane_count >= 2,
{
    if plane_count >= 2 {
        VideoFrameFormat::Nv12
    } else {
        VideoFrameFormat::Bgra
    }
}

/// The byte length of a plane of `rows` rows of `stride` bytes; `None` when it
/// does not fit in 32 bits, where the arithmetic overflows.
pub fn plane_len(stride: u32, rows: u32) -> (r: Option<usize>)
    ensures
        r is None <==> stride * rows > u32::MAX,
        r matches Some(n) ==> n == stride * rows,
{
    match stride.checked_mul(rows) {
        Some(n) => Some(n as usize),
        None => None,
    }
}

/// A texture that wraps one plane of a pixel buffer without copying it.
#[derive(Clone, Copy, Debug, PartialEq, Eq, Structural)]
pub struct PlaneTexture {
    pub plane: usize,
    pub format: TextureFormat,
    pub width: usize,
    pub height: usize,
}

/// The textures of a zero-copy import: one per wrapped plane, plus a
/// placeholder chroma texture for a single-plane (BGRA) buffer.
pub struct ZeroCopyPlan {
    pub format: VideoFrameFormat,
    pub planes: Vec<PlaneTexture>,
    pub dummy_cbcr: Option<TexturePlan>,
}

/// The placeholder chroma texture of a BGRA surface.
pub open spec fn dummy_cbcr_plan() -> TexturePlan {
    TexturePlan {
        label: "surface_dummy_cbcr",
        width: 1,
        height: 1,
        format: TextureFormat::Rg8Unorm,
        copy_dst: false,
        upload: None,
    }
}

/// Plan a zero-copy import of a pixel buffer: a biplanar buffer wraps its
/// luma plane as R8 and its chroma plane as RG8, each at its own size; any
/// other buffer wraps its single plane as a four-channel texture at the
/// buffer's size.
pub fn zero_copy_plan(plane_count: usize, plane_sizes: &Vec<(usize, usize)>, width: usize, height: usize) -> (r: ZeroCopyPlan)
    requires
        plane_count >= 2 ==> plane_sizes.len() >= 2,
    ensures
        r.format == if plane_count >= 2 { VideoFrameFormat::Nv12 } else { VideoFrameFormat::Bgra },
        plane_count >= 2 ==> {
            &&& r.planes@ == seq![
                (PlaneTexture { plane: 0, format: TextureFormat::R8Unorm, width: plane_sizes@[0].0, height: plane_sizes@[0].1 }),
                (PlaneTexture { plane: 1, format: TextureFormat::Rg8Unorm, width: plane_sizes@[1].0, height: plane_sizes@[1].1 }),
            ]
            &&& r.dummy_cbcr is None
        },
        plane_count < 2 ==> {
            &&& r.planes@ == seq![(PlaneTexture { plane: 0, format: TextureFormat::Rgba8Unorm, width, height })]
            &&& r.dummy_cbcr == Some(dummy_cbcr_plan())
        },
{
    let mut planes: Vec<PlaneTexture> = Vec::new();
    if plane_count >= 2 {
        let (y_width, y_height) = plane_sizes[0];
        let (cbcr_width, cbcr_height) = plane_sizes[1];
        planes.push(PlaneTexture { plane: 0, format: TextureFormat::R8Unorm, width: y_width, height: y_height });
        planes.push(PlaneTexture { plane: 1, format: TextureFormat::Rg8Unorm, width: cbcr_width, height: cbcr_height });
        ZeroCopyPlan { format: VideoFrameFormat::Nv12, planes, dummy_cbcr: None }
    } else {
        planes.push(PlaneTexture { plane: 0, format: TextureFormat::Rgba8Unorm, width, height });
        let dummy = TexturePlan {
            label: "surface_dummy_cbcr",
            width: 1,
            height: 1,
            format: TextureFormat::Rg8Unorm,
            copy_dst: false,
            upload: None,
        };
        ZeroCopyPlan { format: VideoFrameFormat::Bgra, planes, dummy_cbcr: Some(dummy) }
    }
}

/// The frame's planes fit the plan: every upload reads an existing plane.
pub proof fn lemma_buffer_plan_uploads_existing_planes(strides: Seq<u32>, width: u32, height: u32, format: VideoFrameFormat)
    ensures
        ({
            let p = buffer_plan(strides, width, height, format);
            &&& p.format == format
            &&& p.y.upload matches Some(u) && u.plane < planes_of(format) && u.bytes_per_row == strides[u.plane as int]
            &&& p.cbcr.upload matches Some(u) ==> u.plane < planes_of(format) && u.bytes_per_row == strides[u.plane as int]
            &&& p.cbcr.upload is None <==> format == VideoFrameFormat::Bgra
        }),
{
}

/// The luma (or BGRA) texture has the frame's size; an NV12 frame's chroma
/// texture has half of it in each direction, as two channels, and a BGRA
/// frame's placeholder chroma texture is one texel that nothing is uploaded
/// into.
pub proof fn lemma_buffer_plan_texture_sizes(strides: Seq<u32>, width: u32, height: u32, format: VideoFrameFormat)
    ensures
        ({
            let p = buffer_plan(strides, width, height, format);
            &&& p.y.width == width && p.y.height == height && p.y.copy_dst
            &&& p.y.format == if format == VideoFrameFormat::Nv12 {
                TextureFormat::R8Unorm
            } else {
                TextureFormat::Rgba8Unorm
            }
            &&& p.cbcr.format == TextureFormat::Rg8Unorm
            &&& format == VideoFrameFormat::Nv12 ==> p.cbcr.width == width / 2 && p.cbcr.height == height / 2
                && p.cbcr.copy_dst
            &&& format == VideoFrameFormat::Bgra ==> p.cbcr == dummy_cbcr_plan()
        }),
{
}

} // verus!
