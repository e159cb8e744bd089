use telemetry_core::camera::VideoFrame;

fn frame_3x2() -> VideoFrame {
    let data: Vec<u8> = (0..18).collect();
    VideoFrame::new(data, 3, 2, 99, 4)
}

#[test]
fn pixel_lookup() {
    let f = frame_3x2();
    assert_eq!(f.get_pixel(0, 0), Some([0, 1, 2]));
    assert_eq!(f.get_pixel(2, 1), Some([15, 16, 17]));
    assert_eq!(f.get_pixel(3, 0), None);
    assert_eq!(f.get_pixel(0, 2), None);
}

#[test]
fn grayscale_weights() {
    let f = VideoFrame::new(vec![255, 255, 255, 100, 0, 0], 2, 1, 0, 0);
    assert_eq!(f.to_grayscale(), vec![255, 29]);
}

#[test]
fn crop_region() {
    let f = frame_3x2();
    let c = f.crop(1, 0, 2, 2).unwrap();
    assert_eq!((c.width, c.height), (2, 2));
    assert_eq!(c.data, vec![3, 4, 5, 6, 7, 8, 12, 13, 14, 15, 16, 17]);
    assert_eq!(c.timestamp_ns, 99);
    assert!(f.crop(2, 0, 2, 1).is_none());
}

#[test]
fn resize_nearest_neighbour() {
    let f = frame_3x2();
    let r = f.resize(6, 2);
    assert_eq!((r.width, r.height), (6, 2));
    assert_eq!(r.data.len(), 36);
    assert_eq!(&r.data[0..6], &[0, 1, 2, 0, 1, 2]);
    let s = f.resize(1, 1);
    assert_eq!(s.data, vec![0, 1, 2]);
}
