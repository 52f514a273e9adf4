use scanner::decoder::yuyv_to_gray;

#[test]
fn full_frame_extracts_every_even_byte() {
    let data: Vec<u8> = (0u8..16).collect();
    let gray = yuyv_to_gray(&data, 4, 2);
    assert_eq!(gray, vec![0, 2, 4, 6, 8, 10, 12, 14]);
}

#[test]
fn full_frame_length_is_width_times_height() {
    let data = vec![7u8; 640 * 480 * 2];
    let gray = yuyv_to_gray(&data, 640, 480);
    assert_eq!(gray.len(), 640 * 480);
    assert!(gray.iter().all(|&p| p == 7));
}

#[test]
fn short_frame_yields_half_its_bytes() {
    let data: Vec<u8> = (0u8..10).collect();
    let gray = yuyv_to_gray(&data, 4, 2);
    assert_eq!(gray, vec![0, 2, 4, 6, 8]);
}

#[test]
fn odd_short_frame_drops_incomplete_pair() {
    let data: Vec<u8> = (0u8..5).collect();
    let gray = yuyv_to_gray(&data, 4, 2);
    assert_eq!(gray, vec![0, 2]);
}

#[test]
fn empty_frame_yields_no_pixels() {
    let gray = yuyv_to_gray(&[], 4, 2);
    assert!(gray.is_empty());
}

#[test]
fn oversized_frame_stops_at_requested_pixels() {
    let data = vec![9u8; 100];
    let gray = yuyv_to_gray(&data, 3, 3);
    assert_eq!(gray.len(), 9);
}
