use kg_capture::pixel::PixelBuffer;
use kg_capture::validate::validate;
use kg_capture::validate::RejectReason;
use kg_capture::validate::ValidationOutcome;

/// A `width` by `height` buffer whose column-0 red byte is 0xFF exactly in
/// `poisoned_rows`; everything else is a mid-grey.
fn buffer_with_poison(width: u32, height: u32, poisoned_rows: &[u32]) -> PixelBuffer {
    let mut data = vec![0x40u8; (width * height * 4) as usize];
    for &row in poisoned_rows {
        data[(row * width * 4 + 2) as usize] = 0xFF;
    }
    PixelBuffer::from_bytes(width, height, data).unwrap()
}

#[test]
fn accepts_buffer_with_no_poisoned_row() {
    let b = buffer_with_poison(4, 3, &[]);
    match validate(b) {
        ValidationOutcome::Accepted(buf) => assert_eq!(buf.len(), 48),
        ValidationOutcome::Rejected(_) => panic!("clean buffer rejected"),
    }
}

#[test]
fn rejects_buffer_with_one_poisoned_row() {
    let b = buffer_with_poison(4, 3, &[1]);
    match validate(b) {
        ValidationOutcome::Accepted(_) => panic!("poisoned buffer accepted"),
        ValidationOutcome::Rejected(RejectReason::PoisonedRow { row }) => assert_eq!(row, 1),
    }
}

#[test]
fn rejection_names_the_first_poisoned_row() {
    let b = buffer_with_poison(4, 5, &[3, 1, 4]);
    match validate(b) {
        ValidationOutcome::Accepted(_) => panic!("poisoned buffer accepted"),
        ValidationOutcome::Rejected(RejectReason::PoisonedRow { row }) => assert_eq!(row, 1),
    }
}

#[test]
fn adding_poisoned_rows_keeps_the_buffer_rejected() {
    // Rejection is monotonic: starting from one poisoned row, every
    // superset of poisoned rows is still rejected.
    let mut rows: Vec<u32> = vec![2];
    for extra in [0u32, 1, 3] {
        assert!(matches!(
            validate(buffer_with_poison(3, 4, &rows)),
            ValidationOutcome::Rejected(_)
        ));
        rows.push(extra);
    }
    assert!(matches!(
        validate(buffer_with_poison(3, 4, &rows)),
        ValidationOutcome::Rejected(_)
    ));
}

#[test]
fn rejects_when_every_row_is_poisoned() {
    let b = buffer_with_poison(2, 4, &[0, 1, 2, 3]);
    match validate(b) {
        ValidationOutcome::Accepted(_) => panic!("poisoned buffer accepted"),
        ValidationOutcome::Rejected(RejectReason::PoisonedRow { row }) => assert_eq!(row, 0),
    }
}

#[test]
fn near_maximum_red_is_not_poison() {
    let mut data = vec![0u8; 2 * 2 * 4];
    data[2] = 0xFE;
    data[2 * 4 + 2] = 0xFE;
    let b = PixelBuffer::from_bytes(2, 2, data).unwrap();
    assert!(matches!(validate(b), ValidationOutcome::Accepted(_)));
}

#[test]
fn poison_off_column0_is_invisible_to_the_heuristic() {
    // Documented false negative: only column 0 is sampled.
    let mut data = vec![0u8; 3 * 2 * 4];
    data[4 + 2] = 0xFF; // row 0, column 1, red
    data[3 * 4 + 2 * 4 + 2] = 0xFF; // row 1, column 2, red
    let b = PixelBuffer::from_bytes(3, 2, data).unwrap();
    assert!(matches!(validate(b), ValidationOutcome::Accepted(_)));
}

#[test]
fn maximum_value_in_other_channels_is_not_poison() {
    // Only the red channel is sampled.
    let mut data = vec![0u8; 2 * 2 * 4];
    data[0] = 0xFF; // row 0, column 0, blue
    data[1] = 0xFF; // row 0, column 0, green
    data[3] = 0xFF; // row 0, column 0, alpha
    let b = PixelBuffer::from_bytes(2, 2, data).unwrap();
    assert!(matches!(validate(b), ValidationOutcome::Accepted(_)));
}

#[test]
fn accepts_buffer_with_zero_rows() {
    let b = PixelBuffer::new_zeroed(5, 0).unwrap();
    assert!(matches!(validate(b), ValidationOutcome::Accepted(_)));
}

#[test]
fn accepts_buffer_with_zero_width() {
    let b = PixelBuffer::new_zeroed(0, 5).unwrap();
    assert!(matches!(validate(b), ValidationOutcome::Accepted(_)));
}
