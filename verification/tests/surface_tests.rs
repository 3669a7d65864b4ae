use gpui_elements::gpu_canvas::gpu_canvas;
use gpui_elements::surface::{surface, DmaBufPlane, ObjectFit, Surface, VideoFrame, VideoFrameFormat};
use gpui_elements::surface_import::{
    dmabuf_mapping, import_buffer_plan, pixel_buffer_format, placeholder_frame, plane_len, zero_copy_plan,
    PlaneRegion, PlaneTexture, TextureFormat, TextureUpload,
};

fn nv12_frame() -> VideoFrame<(), ()> {
    VideoFrame::Buffer {
        planes: vec![vec![0u8; 640 * 360], vec![128u8; 640 * 180]],
        strides: vec![640, 640],
        width: 640,
        height: 360,
        format: VideoFrameFormat::Nv12,
    }
}

#[test]
fn video_frame_accessors() {
    let frame = nv12_frame();
    assert_eq!((frame.width(), frame.height(), frame.format()), (640, 360, VideoFrameFormat::Nv12));
    let dmabuf: VideoFrame<i32, ()> = VideoFrame::DmaBuf {
        fd: 3,
        width: 1920,
        height: 1080,
        format: VideoFrameFormat::Bgra,
        planes: vec![DmaBufPlane { offset: 0, stride: 7680, modifier: 0 }],
    };
    assert_eq!((dmabuf.width(), dmabuf.height(), dmabuf.format()), (1920, 1080, VideoFrameFormat::Bgra));
    let biplanar: VideoFrame<(), &str> = VideoFrame::CoreVideo { buffer: "cv", width: 1280, height: 720, plane_count: 2 };
    assert_eq!((biplanar.width(), biplanar.height(), biplanar.format()), (1280, 720, VideoFrameFormat::Nv12));
    let single: VideoFrame<(), &str> = VideoFrame::CoreVideo { buffer: "cv", width: 64, height: 32, plane_count: 1 };
    assert_eq!(single.format(), VideoFrameFormat::Bgra);
}

#[test]
fn surface_defaults_to_contain() {
    let s: Surface<(), (), u8> = surface(nv12_frame());
    assert_eq!(s.object_fit, ObjectFit::Contain);
    assert_eq!(s.style, 0);
    let s = s.object_fit(ObjectFit::Cover);
    assert_eq!(s.object_fit, ObjectFit::Cover);
    assert_eq!(s.source.width(), 640);
}

#[test]
fn gpu_canvas_keeps_callback() {
    let canvas = gpu_canvas::<&str, u8>("draw");
    assert_eq!(canvas.callback, "draw");
    assert_eq!(canvas.style, 0);
}

#[test]
fn nv12_buffer_plan() {
    let plan = import_buffer_plan(&vec![640, 656], 640, 360, VideoFrameFormat::Nv12);
    assert_eq!(plan.format, VideoFrameFormat::Nv12);
    assert_eq!(plan.y.label, "surface_y");
    assert_eq!((plan.y.width, plan.y.height, plan.y.format), (640, 360, TextureFormat::R8Unorm));
    assert_eq!(plan.y.upload, Some(TextureUpload { plane: 0, bytes_per_row: 640 }));
    assert_eq!(plan.cbcr.label, "surface_cbcr");
    assert_eq!((plan.cbcr.width, plan.cbcr.height, plan.cbcr.format), (320, 180, TextureFormat::Rg8Unorm));
    assert_eq!(plan.cbcr.upload, Some(TextureUpload { plane: 1, bytes_per_row: 656 }));
    assert!(plan.y.copy_dst && plan.cbcr.copy_dst);
}

#[test]
fn bgra_buffer_plan_has_placeholder_chroma() {
    let plan = import_buffer_plan(&vec![2560], 640, 360, VideoFrameFormat::Bgra);
    assert_eq!(plan.y.label, "surface_bgra");
    assert_eq!((plan.y.width, plan.y.height, plan.y.format), (640, 360, TextureFormat::Rgba8Unorm));
    assert_eq!(plan.y.upload, Some(TextureUpload { plane: 0, bytes_per_row: 2560 }));
    assert_eq!(plan.cbcr.label, "surface_dummy_cbcr");
    assert_eq!((plan.cbcr.width, plan.cbcr.height, plan.cbcr.format), (1, 1, TextureFormat::Rg8Unorm));
    assert_eq!(plan.cbcr.upload, None);
    assert!(!plan.cbcr.copy_dst);
}

#[test]
fn dmabuf_mapping_covers_all_planes() {
    let planes = vec![
        DmaBufPlane { offset: 0, stride: 1920, modifier: 0 },
        DmaBufPlane { offset: 1920 * 1088, stride: 1920, modifier: 0 },
    ];
    let m = dmabuf_mapping(&planes, 1080, VideoFrameFormat::Nv12).unwrap();
    assert_eq!(m.map_len, 1920 * 1088 + 1920 * 540);
    assert_eq!(
        m.regions,
        vec![
            PlaneRegion { offset: 0, len: 1920 * 1080, stride: 1920 },
            PlaneRegion { offset: 1920 * 1088, len: 1920 * 540, stride: 1920 },
        ]
    );
    // Chroma placed before luma: the luma end is the furthest.
    let planes = vec![
        DmaBufPlane { offset: 1000, stride: 100, modifier: 0 },
        DmaBufPlane { offset: 0, stride: 100, modifier: 0 },
    ];
    let m = dmabuf_mapping(&planes, 10, VideoFrameFormat::Nv12).unwrap();
    assert_eq!(m.map_len, 2000);
    let bgra = dmabuf_mapping(&vec![DmaBufPlane { offset: 64, stride: 400, modifier: 0 }], 3, VideoFrameFormat::Bgra)
        .unwrap();
    assert_eq!(bgra.map_len, 1264);
    assert_eq!(bgra.regions, vec![PlaneRegion { offset: 64, len: 1200, stride: 400 }]);
}

#[test]
fn dmabuf_mapping_rejects_overflow() {
    let huge = vec![DmaBufPlane { offset: 0, stride: u32::MAX, modifier: 0 }];
    assert!(dmabuf_mapping(&huge, 2, VideoFrameFormat::Bgra).is_none());
    let far = vec![DmaBufPlane { offset: u32::MAX, stride: 1, modifier: 0 }];
    assert!(dmabuf_mapping(&far, 1, VideoFrameFormat::Bgra).is_none());
}

#[test]
fn placeholder_is_one_bgra_pixel() {
    match placeholder_frame::<(), ()>() {
        VideoFrame::Buffer { planes, strides, width, height, format } => {
            assert_eq!(planes, vec![vec![0u8; 4]]);
            assert_eq!(strides, vec![4]);
            assert_eq!((width, height, format), (1, 1, VideoFrameFormat::Bgra));
        }
        _ => panic!("expected a buffer frame"),
    }
}

#[test]
fn pixel_buffer_formats_and_plane_lengths() {
    assert_eq!(pixel_buffer_format(2), VideoFrameFormat::Nv12);
    assert_eq!(pixel_buffer_format(3), VideoFrameFormat::Nv12);
    assert_eq!(pixel_buffer_format(1), VideoFrameFormat::Bgra);
    assert_eq!(pixel_buffer_format(0), VideoFrameFormat::Bgra);
    assert_eq!(plane_len(640, 360), Some(230400));
    assert_eq!(plane_len(u32::MAX, 2), None);
}

#[test]
fn zero_copy_plans() {
    let nv12 = zero_copy_plan(2, &vec![(1920, 1080), (960, 540)], 1920, 1080);
    assert_eq!(nv12.format, VideoFrameFormat::Nv12);
    assert_eq!(
        nv12.planes,
        vec![
            PlaneTexture { plane: 0, format: TextureFormat::R8Unorm, width: 1920, height: 1080 },
            PlaneTexture { plane: 1, format: TextureFormat::Rg8Unorm, width: 960, height: 540 },
        ]
    );
    assert!(nv12.dummy_cbcr.is_none());
    let bgra = zero_copy_plan(1, &vec![], 800, 600);
    assert_eq!(bgra.format, VideoFrameFormat::Bgra);
    assert_eq!(bgra.planes, vec![PlaneTexture { plane: 0, format: TextureFormat::Rgba8Unorm, width: 800, height: 600 }]);
    let dummy = bgra.dummy_cbcr.unwrap();
    assert_eq!((dummy.label, dummy.width, dummy.height, dummy.format), ("surface_dummy_cbcr", 1, 1, TextureFormat::Rg8Unorm));
    assert!(!dummy.copy_dst && dummy.upload.is_none());
}
