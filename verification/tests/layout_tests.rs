use kg_capture::layout::client_size;
use kg_capture::layout::compute_layout;
use kg_capture::layout::surface_size;
use kg_capture::layout::CaptureRegion;
use kg_capture::layout::ChromeMetrics;

fn region(width: u32, height: u32) -> CaptureRegion {
    CaptureRegion { width, height }
}

fn chrome() -> ChromeMetrics {
    ChromeMetrics {
        border_x: 8,
        border_y: 8,
        caption: 31,
        padding_x: 4,
    }
}

#[test]
fn stacked_offsets_are_cumulative_heights() {
    // Heights 100 and 300 stack at offsets 0 and 100.
    let regions = vec![region(400, 100), region(400, 300)];
    let layout = compute_layout(&regions).unwrap();
    assert_eq!(layout.slots.len(), 2);
    assert_eq!(layout.slots[0].y_offset, 0);
    assert_eq!(layout.slots[1].y_offset, 100);
    assert_eq!(layout.slots[0].region, regions[0]);
    assert_eq!(layout.slots[1].region, regions[1]);
}

#[test]
fn three_regions_stack_without_overlap() {
    let regions = vec![region(10, 5), region(20, 7), region(15, 11)];
    let layout = compute_layout(&regions).unwrap();
    assert_eq!(layout.slots[0].y_offset, 0);
    assert_eq!(layout.slots[1].y_offset, 5);
    assert_eq!(layout.slots[2].y_offset, 12);
    for i in 0..2 {
        let end = layout.slots[i].y_offset + layout.slots[i].region.height;
        assert!(end <= layout.slots[i + 1].y_offset);
    }
}

#[test]
fn empty_region_list_yields_empty_layout() {
    let layout = compute_layout(&Vec::new()).unwrap();
    assert!(layout.slots.is_empty());
}

#[test]
fn overflowing_stack_height_is_refused() {
    let regions = vec![region(1, u32::MAX), region(1, 1)];
    assert!(compute_layout(&regions).is_none());
}

#[test]
fn window_size_is_widest_plus_chrome_by_sum_plus_chrome() {
    let regions = vec![region(400, 100), region(380, 300)];
    let (w, h) = surface_size(&regions, &chrome()).unwrap();
    assert_eq!(w, 400 + 2 * 8 + 4);
    assert_eq!(h, 100 + 300 + 2 * 8 + 31);
}

#[test]
fn window_size_of_no_regions_is_chrome_alone() {
    let (w, h) = surface_size(&Vec::new(), &chrome()).unwrap();
    assert_eq!(w, 2 * 8 + 4);
    assert_eq!(h, 2 * 8 + 31);
}

#[test]
fn window_size_overflow_is_refused() {
    let regions = vec![region(u32::MAX, 1)];
    assert!(surface_size(&regions, &chrome()).is_none());
    let tall = vec![region(1, u32::MAX)];
    assert!(surface_size(&tall, &chrome()).is_none());
}

#[test]
fn client_size_subtracts_rect_edges() {
    let r = client_size(100, 50, 500, 350).unwrap();
    assert_eq!(r.width, 400);
    assert_eq!(r.height, 300);
    let zero = client_size(7, 9, 7, 9).unwrap();
    assert_eq!(zero.width, 0);
    assert_eq!(zero.height, 0);
}

#[test]
fn inverted_client_rect_is_refused() {
    assert!(client_size(10, 0, 5, 10).is_none());
    assert!(client_size(0, 10, 10, 5).is_none());
}
