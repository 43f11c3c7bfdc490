use toaster_no_heap::path::{build_path, PATH_BUF, PATH_PREFIX};

#[test]
fn build_path_writes_prefix_name_and_nul() {
    let mut buf = [0xAAu8; PATH_BUF];
    let n = build_path("root.json", &mut buf);
    assert_eq!(n, 50);
    assert_eq!(&buf[..n], b"stuf-examples/.generated/publisher-repo/root.json\0");
    assert!(buf[n..].iter().all(|&b| b == 0xAA));
}

#[test]
fn build_path_firmware_name() {
    let mut buf = [0u8; PATH_BUF];
    let n = build_path("toaster-firmware-1.1.0.bin", &mut buf);
    assert_eq!(n, 40 + 26 + 1);
    assert_eq!(&buf[..n - 1], b"stuf-examples/.generated/publisher-repo/toaster-firmware-1.1.0.bin");
    assert_eq!(buf[n - 1], 0);
}

#[test]
fn build_path_prefix_is_forty_bytes() {
    assert_eq!(PATH_PREFIX.len(), 40);
}

#[test]
fn build_path_exact_fit() {
    let name = "x".repeat(PATH_BUF - 40 - 1);
    let mut buf = [9u8; PATH_BUF];
    let n = build_path(&name, &mut buf);
    assert_eq!(n, PATH_BUF);
    assert_eq!(buf[PATH_BUF - 1], 0);
    assert_eq!(buf[PATH_BUF - 2], b'x');
}

#[test]
fn build_path_too_long_leaves_buffer() {
    let name = "x".repeat(PATH_BUF - 40);
    let mut buf = [9u8; PATH_BUF];
    let n = build_path(&name, &mut buf);
    assert_eq!(n, 0);
    assert!(buf.iter().all(|&b| b == 9));
}

#[test]
fn build_path_empty_name() {
    let mut buf = [1u8; PATH_BUF];
    let n = build_path("", &mut buf);
    assert_eq!(n, 41);
    assert_eq!(&buf[..41], b"stuf-examples/.generated/publisher-repo/\0");
    assert_eq!(buf[41], 1);
}

#[test]
fn build_path_multibyte_name_counts_bytes() {
    let mut buf = [0u8; PATH_BUF];
    let n = build_path("é.json", &mut buf);
    assert_eq!(n, 40 + "é.json".len() + 1);
    assert_eq!(&buf[40..n - 1], "é.json".as_bytes());
}

#[test]
fn build_path_distinct_names_distinct_paths() {
    let mut a = [0u8; PATH_BUF];
    let mut b = [0u8; PATH_BUF];
    let na = build_path("snapshot.json", &mut a);
    let nb = build_path("snapshot.jso", &mut b);
    assert_ne!(&a[..na], &b[..nb]);
    assert_eq!(&a[40..na - 1], b"snapshot.json");
}
