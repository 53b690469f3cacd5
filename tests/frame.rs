use video_catalog::frame::{pack_rows, HoverFrame, VideoFrame};

#[test]
fn pack_rows_drops_stride_padding() {
    // Two rows of one pixel each, with rows six bytes apart.
    let plane: Vec<u8> = vec![1, 2, 3, 4, 99, 99, 5, 6, 7, 8, 99, 99];
    assert_eq!(pack_rows(&plane, 6, 1, 2), Some(vec![1, 2, 3, 4, 5, 6, 7, 8]));
}

#[test]
fn pack_rows_accepts_a_last_row_without_padding() {
    let plane: Vec<u8> = vec![1, 2, 3, 4, 0, 0, 5, 6, 7, 8];
    assert_eq!(pack_rows(&plane, 6, 1, 2), Some(vec![1, 2, 3, 4, 5, 6, 7, 8]));
}

#[test]
fn pack_rows_rejects_short_planes_and_narrow_strides() {
    let plane: Vec<u8> = vec![0; 9];
    assert_eq!(pack_rows(&plane, 6, 1, 2), None);
    assert_eq!(pack_rows(&plane, 3, 1, 2), None);
    assert_eq!(pack_rows(&plane, usize::MAX, 1, u32::MAX), None);
}

#[test]
fn pack_rows_of_no_rows_is_empty() {
    let plane: Vec<u8> = Vec::new();
    assert_eq!(pack_rows(&plane, 1280, 320, 0), Some(Vec::new()));
}

#[test]
fn frame_from_plane_has_requested_size() {
    let width: u32 = 320;
    let height: u32 = 180;
    let stride: usize = 1344;
    let plane: Vec<u8> = (0..stride * height as usize).map(|i| (i % 251) as u8).collect();
    let frame = VideoFrame::from_plane(&plane, stride, width, height, 1_500_000).unwrap();
    assert_eq!(frame.width, width);
    assert_eq!(frame.height, height);
    assert_eq!(frame.timestamp, 1_500_000);
    assert_eq!(frame.data.len(), (width * height * 4) as usize);
    assert_eq!(&frame.data[0..1280], &plane[0..1280]);
    assert_eq!(&frame.data[1280..2560], &plane[1344..2624]);
}

#[test]
fn frame_from_short_plane_is_none() {
    let plane: Vec<u8> = vec![0; 100];
    assert!(VideoFrame::from_plane(&plane, 1280, 320, 180, 0).is_none());
}

#[test]
fn hover_frame_keeps_pixels_and_tags() {
    let frame = VideoFrame { data: vec![9; 16], width: 2, height: 2, timestamp: 7 };
    let tagged = HoverFrame::from_frame("/v/a.mp4".to_string(), 420_000, 3, frame);
    assert_eq!(tagged.video_path, "/v/a.mp4");
    assert_eq!(tagged.position, 420_000);
    assert_eq!(tagged.epoch, 3);
    assert_eq!(tagged.rgba_data, vec![9; 16]);
    assert_eq!((tagged.width, tagged.height), (2, 2));
}
