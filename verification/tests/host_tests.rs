use toaster_no_heap::checksum::flash_checksum;
use toaster_no_heap::semihost::{handle_from_host, open_args, read_filled, OPEN_MODE_READ};

#[test]
fn host_error_value_means_failure() {
    assert_eq!(handle_from_host(usize::MAX), None);
    assert_eq!(handle_from_host(0), Some(0));
    assert_eq!(handle_from_host(42), Some(42));
    assert_eq!(handle_from_host(usize::MAX - 1), Some(usize::MAX - 1));
}

#[test]
fn read_succeeds_only_when_nothing_is_left() {
    assert!(read_filled(0));
    assert!(!read_filled(1));
    assert!(!read_filled(usize::MAX));
}

#[test]
fn open_args_drop_terminator() {
    assert_eq!(open_args(b"root.json\0"), (OPEN_MODE_READ, 9));
    assert_eq!(open_args(b"\0"), (0, 0));
}

#[test]
fn checksum_of_empty_image() {
    assert_eq!(flash_checksum(&[]), 0);
}

#[test]
fn checksum_sums_bytes() {
    assert_eq!(flash_checksum(&[1, 2, 3, 255]), 261);
}

#[test]
fn checksum_matches_wrapping_fold() {
    let image: Vec<u8> = (0..2048u32).map(|i| (i * 37 % 251) as u8).collect();
    let expected = image.iter().fold(0u32, |acc, &b| acc.wrapping_add(b as u32));
    assert_eq!(flash_checksum(&image), expected);
}

#[test]
fn checksum_of_concatenation_adds_wrapping() {
    let a = vec![200u8; 1000];
    let b = vec![7u8; 333];
    let mut ab = a.clone();
    ab.extend_from_slice(&b);
    assert_eq!(flash_checksum(&ab), flash_checksum(&a).wrapping_add(flash_checksum(&b)));
}

#[test]
fn checksum_wraps_at_two_to_the_thirty_two() {
    // 16843010 * 255 = 4294967550 = 2^32 + 254
    let n = 16_843_010usize;
    let image = vec![255u8; n];
    assert_eq!(flash_checksum(&image), 254);
}

#[test]
fn checksum_ignores_byte_order() {
    let image: Vec<u8> = (0..1500u32).map(|i| (i * 91 % 256) as u8).collect();
    let mut reversed = image.clone();
    reversed.reverse();
    let mut sorted = image.clone();
    sorted.sort();
    assert_eq!(flash_checksum(&image), flash_checksum(&reversed));
    assert_eq!(flash_checksum(&image), flash_checksum(&sorted));
}
