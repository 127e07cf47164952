use grayscale::{fast_grayscale, gray_level};

fn converted(input: &[u8]) -> Vec<u8> {
    let mut buffer = input.to_vec();
    fast_grayscale(&mut buffer);
    buffer
}

#[test]
fn exact_mean_is_written_to_all_three_channels() {
    assert_eq!(converted(&[30, 60, 90, 255]), vec![60, 60, 60, 255]);
}

#[test]
fn gray_pixels_are_unchanged() {
    assert_eq!(
        converted(&[10, 10, 10, 0, 0, 0, 0, 128]),
        vec![10, 10, 10, 0, 0, 0, 0, 128]
    );
}

#[test]
fn mean_is_rounded_down() {
    assert_eq!(converted(&[255, 0, 0, 10]), vec![85, 85, 85, 10]);
}

#[test]
fn empty_buffer_stays_empty() {
    assert_eq!(converted(&[]), Vec::<u8>::new());
}

#[test]
fn buffer_without_a_complete_pixel_is_unchanged() {
    assert_eq!(converted(&[1, 2, 3]), vec![1, 2, 3]);
}

#[test]
fn one_and_two_byte_buffers_are_unchanged() {
    assert_eq!(converted(&[200]), vec![200]);
    assert_eq!(converted(&[200, 100]), vec![200, 100]);
}

#[test]
fn trailing_partial_pixel_is_unchanged() {
    assert_eq!(converted(&[30, 60, 90, 255, 9]), vec![60, 60, 60, 255, 9]);
    assert_eq!(converted(&[30, 60, 90, 255, 9, 8]), vec![60, 60, 60, 255, 9, 8]);
    assert_eq!(
        converted(&[30, 60, 90, 255, 9, 8, 7]),
        vec![60, 60, 60, 255, 9, 8, 7]
    );
}

#[test]
fn every_pixel_of_a_longer_buffer_is_converted() {
    assert_eq!(
        converted(&[0, 0, 1, 1, 255, 255, 255, 0, 1, 2, 4, 77, 100, 0, 50, 200]),
        vec![0, 0, 0, 1, 255, 255, 255, 0, 2, 2, 2, 77, 50, 50, 50, 200]
    );
}

#[test]
fn sum_above_one_byte_does_not_wrap() {
    assert_eq!(converted(&[255, 255, 254, 3]), vec![254, 254, 254, 3]);
    assert_eq!(converted(&[200, 100, 0, 3]), vec![100, 100, 100, 3]);
}

#[test]
fn gray_level_is_the_truncated_mean() {
    assert_eq!(gray_level(0, 0, 0), 0);
    assert_eq!(gray_level(255, 255, 255), 255);
    assert_eq!(gray_level(255, 0, 0), 85);
    assert_eq!(gray_level(0, 0, 2), 0);
    assert_eq!(gray_level(1, 1, 2), 1);
    assert_eq!(gray_level(30, 60, 90), 60);
}

#[test]
fn gray_level_does_not_depend_on_channel_order() {
    assert_eq!(gray_level(10, 200, 33), 81);
    assert_eq!(gray_level(200, 33, 10), 81);
    assert_eq!(gray_level(33, 10, 200), 81);
}
