use scap_frames::assembler::{Assembler, PixelFormat, Plane, Step};
use scap_frames::convert::{convert_bgra_to_rgb, crop_rows, remove_alpha_channel};
use scap_frames::frame::Frame;
use scap_frames::status::{is_frame_complete, FrameStatusInfo, FRAME_STATUS_COMPLETE};

fn padded_two_by_two() -> Vec<u8> {
    let row = [[10, 20, 30, 255].repeat(2), vec![0xEE; 8]].concat();
    [row.clone(), row].concat()
}

/// Drives an assembly of a packed format through to its frame.
fn assemble_packed(format: PixelFormat, width: usize, height: usize, plane: Plane) -> Option<Frame> {
    let mut a = Assembler::new(format, 42);
    assert_eq!(a.step, Step::Lock);
    a.on_locked();
    assert_eq!(a.step, Step::ReadBounds);
    a.on_bounds(width, height);
    let mut frame = None;
    if a.step == Step::CopyPlanes {
        let planes = vec![plane];
        assert!(a.planes_fit(&planes));
        frame = Some(a.on_planes(planes));
    }
    assert_eq!(a.step, Step::Unlock);
    a.on_unlocked();
    assert_eq!(a.step, Step::Finished);
    assert_eq!(a.locks, 1);
    assert_eq!(a.unlocks, 1);
    frame
}

#[test]
fn padded_buffer_gives_bgra_frame() {
    let frame = assemble_packed(PixelFormat::BGRA, 2, 2, Plane { stride: 16, bytes: padded_two_by_two() });
    match frame {
        Some(Frame::BGRA(f)) => {
            assert_eq!(f.display_time, 42);
            assert_eq!((f.width, f.height), (2, 2));
            assert_eq!(f.data, [10, 20, 30, 255].repeat(4));
        }
        other => panic!("unexpected {:?}", other),
    }
}

#[test]
fn padded_buffer_gives_bgr_frame() {
    let frame = assemble_packed(PixelFormat::BGR, 2, 2, Plane { stride: 16, bytes: padded_two_by_two() });
    match frame {
        Some(Frame::BGR(f)) => {
            assert_eq!((f.width, f.height), (2, 2));
            assert_eq!(f.data, [10, 20, 30].repeat(4));
        }
        other => panic!("unexpected {:?}", other),
    }
}

#[test]
fn padded_buffer_gives_rgb_frame() {
    let frame = assemble_packed(PixelFormat::RGB, 2, 2, Plane { stride: 16, bytes: padded_two_by_two() });
    match frame {
        Some(Frame::RGB(f)) => {
            assert_eq!((f.width, f.height), (2, 2));
            assert_eq!(f.data, [30, 20, 10].repeat(4));
        }
        other => panic!("unexpected {:?}", other),
    }
}

#[test]
fn zero_width_gives_no_frame_and_unlocks_once() {
    for format in [PixelFormat::BGR, PixelFormat::BGRA, PixelFormat::RGB] {
        let frame = assemble_packed(format, 0, 5, Plane { stride: 0, bytes: vec![] });
        assert!(frame.is_none());
    }
}

#[test]
fn zero_height_biplanar_gives_no_frame() {
    let mut a = Assembler::new(PixelFormat::YUV, 7);
    assert_eq!(a.step, Step::ReadStatus);
    a.on_status(&FrameStatusInfo::Status { value: FRAME_STATUS_COMPLETE });
    assert_eq!(a.step, Step::Lock);
    a.on_locked();
    a.on_bounds(640, 0);
    assert_eq!(a.step, Step::Unlock);
    a.on_unlocked();
    assert_eq!(a.step, Step::Finished);
    assert!(!a.frame_made);
    assert_eq!((a.locks, a.unlocks), (1, 1));
}

#[test]
fn empty_attachments_end_before_geometry() {
    let mut a = Assembler::new(PixelFormat::YUV, 7);
    a.on_status(&FrameStatusInfo::NoAttachments);
    assert_eq!(a.step, Step::Finished);
    assert_eq!(a.locks, 0);
    assert!(!a.bounds_read);
}

#[test]
fn incomplete_status_ends_assembly() {
    for info in [
        FrameStatusInfo::NoStatusEntry,
        FrameStatusInfo::Unreadable,
        FrameStatusInfo::Status { value: 1 },
    ] {
        let mut a = Assembler::new(PixelFormat::YUV, 7);
        a.on_status(&info);
        assert_eq!(a.step, Step::Finished);
        assert_eq!(a.locks, 0);
    }
}

#[test]
fn status_gate_accepts_only_complete() {
    assert!(is_frame_complete(&FrameStatusInfo::Status { value: FRAME_STATUS_COMPLETE }));
    assert!(!is_frame_complete(&FrameStatusInfo::Status { value: 2 }));
    assert!(!is_frame_complete(&FrameStatusInfo::NoAttachments));
    assert!(!is_frame_complete(&FrameStatusInfo::NoStatusEntry));
    assert!(!is_frame_complete(&FrameStatusInfo::Unreadable));
}

#[test]
fn biplanar_frame_keeps_planes_and_strides() {
    let mut a = Assembler::new(PixelFormat::YUV, 1_234_567_891);
    a.on_status(&FrameStatusInfo::Status { value: FRAME_STATUS_COMPLETE });
    a.on_locked();
    a.on_bounds(2, 4);
    assert_eq!(a.step, Step::CopyPlanes);
    assert_eq!(a.plane_len(0, 8), Some(32));
    assert_eq!(a.plane_len(1, 8), Some(16));
    let luma: Vec<u8> = (0..32).collect();
    let chroma: Vec<u8> = (100..116).collect();
    let planes = vec![
        Plane { stride: 8, bytes: luma.clone() },
        Plane { stride: 8, bytes: chroma.clone() },
    ];
    assert!(a.planes_fit(&planes));
    let frame = a.on_planes(planes);
    a.on_unlocked();
    match frame {
        Frame::YUV(f) => {
            assert_eq!(f.display_time, 1_234_567_891);
            assert_eq!((f.width, f.height), (2, 4));
            assert_eq!(f.luminance_bytes, luma);
            assert_eq!(f.luminance_stride, 8);
            assert_eq!(f.chrominance_bytes, chroma);
            assert_eq!(f.chrominance_stride, 8);
        }
        other => panic!("unexpected {:?}", other),
    }
}

#[test]
fn plane_len_reports_overflow() {
    let mut a = Assembler::new(PixelFormat::BGRA, 0);
    a.on_locked();
    a.on_bounds(1, usize::MAX);
    assert_eq!(a.plane_len(0, 2), None);
    assert_eq!(a.plane_len(0, 1), Some(usize::MAX));
}

#[test]
fn planes_fit_rejects_mismatched_geometry() {
    let mut a = Assembler::new(PixelFormat::BGRA, 0);
    a.on_locked();
    a.on_bounds(2, 2);
    // too short
    assert!(!a.planes_fit(&vec![Plane { stride: 16, bytes: vec![0; 31] }]));
    // stride narrower than a row of pixels
    assert!(!a.planes_fit(&vec![Plane { stride: 4, bytes: vec![0; 8] }]));
    // two planes for a packed format
    assert!(!a.planes_fit(&vec![
        Plane { stride: 16, bytes: vec![0; 32] },
        Plane { stride: 16, bytes: vec![0; 16] },
    ]));
    assert!(a.planes_fit(&vec![Plane { stride: 8, bytes: vec![0; 16] }]));
}

#[test]
fn crop_drops_row_padding() {
    let data: Vec<u8> = (0..24).collect();
    let out = crop_rows(&data, 12, 2, 2);
    assert_eq!(out, vec![0, 1, 2, 3, 4, 5, 6, 7, 12, 13, 14, 15, 16, 17, 18, 19]);
}

#[test]
fn crop_without_padding_is_identity() {
    let data: Vec<u8> = (0..16).collect();
    assert_eq!(crop_rows(&data, 8, 2, 2), data);
}

#[test]
fn crop_of_zero_rows_is_empty() {
    assert!(crop_rows(&vec![], 8, 2, 0).is_empty());
}

#[test]
fn alpha_removal_keeps_first_three_bytes() {
    let data = vec![1, 2, 3, 4, 5, 6, 7, 8];
    assert_eq!(remove_alpha_channel(&data), vec![1, 2, 3, 5, 6, 7]);
    assert!(remove_alpha_channel(&vec![]).is_empty());
}

#[test]
fn reorder_swaps_blue_and_red() {
    let data = vec![1, 2, 3, 4, 5, 6, 7, 8];
    assert_eq!(convert_bgra_to_rgb(&data), vec![3, 2, 1, 7, 6, 5]);
    assert!(convert_bgra_to_rgb(&vec![]).is_empty());
}
