use kg_capture::pixel::PixelBuffer;
use kg_capture::pixel::CHANNEL_ALPHA;
use kg_capture::pixel::CHANNEL_BLUE;
use kg_capture::pixel::CHANNEL_GREEN;
use kg_capture::pixel::CHANNEL_RED;

#[test]
fn zeroed_buffer_size_is_width_height_4() {
    let b = PixelBuffer::new_zeroed(3, 2).unwrap();
    assert_eq!(b.len(), 3 * 2 * 4);
    assert_eq!(b.width(), 3);
    assert_eq!(b.height(), 2);
}

#[test]
fn zeroed_buffer_is_all_zero() {
    let b = PixelBuffer::new_zeroed(2, 2).unwrap();
    for byte in b.bytes() {
        assert_eq!(*byte, 0);
    }
}

#[test]
fn zero_sized_buffers_are_empty() {
    assert_eq!(PixelBuffer::new_zeroed(0, 7).unwrap().len(), 0);
    assert_eq!(PixelBuffer::new_zeroed(7, 0).unwrap().len(), 0);
}

#[test]
fn from_bytes_accepts_exact_length() {
    let data = vec![9u8; 5 * 4 * 4];
    let b = PixelBuffer::from_bytes(5, 4, data).unwrap();
    assert_eq!(b.len(), 80);
}

#[test]
fn from_bytes_rejects_wrong_length() {
    assert!(PixelBuffer::from_bytes(5, 4, vec![0u8; 79]).is_none());
    assert!(PixelBuffer::from_bytes(5, 4, vec![0u8; 81]).is_none());
    assert!(PixelBuffer::from_bytes(1, 1, Vec::new()).is_none());
}

#[test]
fn byte_at_reads_bgra_top_down() {
    // 2 pixels wide, 2 rows: each pixel written as B, G, R, A.
    let data = vec![
        10, 11, 12, 13, 20, 21, 22, 23, // row 0
        30, 31, 32, 33, 40, 41, 42, 43, // row 1
    ];
    let b = PixelBuffer::from_bytes(2, 2, data).unwrap();
    assert_eq!(b.byte_at(0, 0, CHANNEL_BLUE), 10);
    assert_eq!(b.byte_at(0, 0, CHANNEL_GREEN), 11);
    assert_eq!(b.byte_at(0, 0, CHANNEL_RED), 12);
    assert_eq!(b.byte_at(0, 0, CHANNEL_ALPHA), 13);
    assert_eq!(b.byte_at(0, 1, CHANNEL_RED), 22);
    assert_eq!(b.byte_at(1, 0, CHANNEL_RED), 32);
    assert_eq!(b.byte_at(1, 1, CHANNEL_ALPHA), 43);
}

#[test]
fn column0_red_samples_third_byte_of_each_row() {
    let data = vec![
        0, 0, 200, 0, 9, 9, 9, 9, // row 0
        0, 0, 201, 0, 9, 9, 9, 9, // row 1
    ];
    let b = PixelBuffer::from_bytes(2, 2, data).unwrap();
    assert_eq!(b.column0_red(0), 200);
    assert_eq!(b.column0_red(1), 201);
}

#[test]
fn into_bytes_returns_the_data() {
    let data = vec![7u8; 4];
    let b = PixelBuffer::from_bytes(1, 1, data.clone()).unwrap();
    assert_eq!(b.into_bytes(), data);
}
