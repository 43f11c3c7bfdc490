use toaster_no_heap::fetch::{fetch_to_buf, FetchPhase, HostReply, HostRequest, FIRMWARE_BUF, META_BUF};

/// A host that serves the requests of a fetch with fixed answers, writing
/// `fill` into the buffer when asked to read.
fn drive(
    name: &str,
    buf: &mut [u8],
    opened: Option<usize>,
    measured: Option<usize>,
    read_ok: bool,
    fill: u8,
) -> (Vec<HostRequest>, Option<usize>) {
    let mut fetch = fetch_to_buf(name, buf.len());
    let mut seen = Vec::new();
    loop {
        let req = fetch.request();
        seen.push(req);
        assert!(seen.len() <= 5);
        let reply = match req {
            HostRequest::Open => {
                assert!(fetch.path().ends_with(b"\0"));
                HostReply::Opened(opened)
            }
            HostRequest::Measure { .. } => HostReply::Measured(measured),
            HostRequest::Read { len, .. } => {
                for b in buf[..len].iter_mut() {
                    *b = fill;
                }
                HostReply::ReadDone(read_ok)
            }
            HostRequest::Close { .. } => HostReply::Closed,
            HostRequest::Finish { fetched } => {
                let got = fetch.fetched(buf).map(|s| s.len());
                assert_eq!(got, fetched);
                return (seen, fetched);
            }
        };
        assert!(fetch.accepts(&reply));
        fetch.advance(reply);
    }
}

#[test]
fn fetch_success_reads_closes_and_returns_length() {
    let mut buf = [0u8; 16];
    let (reqs, out) = drive("timestamp.json", &mut buf, Some(3), Some(10), true, 0x5A);
    assert_eq!(
        reqs,
        vec![
            HostRequest::Open,
            HostRequest::Measure { fd: 3 },
            HostRequest::Read { fd: 3, len: 10 },
            HostRequest::Close { fd: 3 },
            HostRequest::Finish { fetched: Some(10) },
        ]
    );
    assert_eq!(out, Some(10));
    assert!(buf[..10].iter().all(|&b| b == 0x5A));
    assert!(buf[10..].iter().all(|&b| b == 0));
}

#[test]
fn fetch_open_failure() {
    let mut buf = [0u8; 16];
    let (reqs, out) = drive("snapshot.json", &mut buf, None, Some(1), true, 1);
    assert_eq!(reqs, vec![HostRequest::Open, HostRequest::Finish { fetched: None }]);
    assert_eq!(out, None);
}

#[test]
fn fetch_length_failure_is_not_closed() {
    let mut buf = [0u8; 16];
    let (reqs, out) = drive("targets.json", &mut buf, Some(7), None, true, 1);
    assert_eq!(
        reqs,
        vec![HostRequest::Open, HostRequest::Measure { fd: 7 }, HostRequest::Finish { fetched: None }]
    );
    assert_eq!(out, None);
}

#[test]
fn fetch_too_large_is_closed_unread() {
    let mut buf = [0u8; 16];
    let (reqs, out) = drive("targets.json", &mut buf, Some(4), Some(17), true, 1);
    assert_eq!(
        reqs,
        vec![
            HostRequest::Open,
            HostRequest::Measure { fd: 4 },
            HostRequest::Close { fd: 4 },
            HostRequest::Finish { fetched: None },
        ]
    );
    assert_eq!(out, None);
    assert!(buf.iter().all(|&b| b == 0));
}

#[test]
fn fetch_exactly_full_buffer() {
    let mut buf = [0u8; 16];
    let (_, out) = drive("targets.json", &mut buf, Some(4), Some(16), true, 2);
    assert_eq!(out, Some(16));
}

#[test]
fn fetch_read_failure_still_closes() {
    let mut buf = [0u8; 16];
    let (reqs, out) = drive("targets.json", &mut buf, Some(5), Some(8), false, 1);
    assert_eq!(
        reqs,
        vec![
            HostRequest::Open,
            HostRequest::Measure { fd: 5 },
            HostRequest::Read { fd: 5, len: 8 },
            HostRequest::Close { fd: 5 },
            HostRequest::Finish { fetched: None },
        ]
    );
    assert_eq!(out, None);
}

#[test]
fn fetch_empty_file() {
    let mut buf = [0u8; 4];
    let (_, out) = drive("empty.bin", &mut buf, Some(0), Some(0), true, 1);
    assert_eq!(out, Some(0));
}

#[test]
fn fetch_name_too_long_finishes_at_once() {
    let name = "n".repeat(100);
    let mut buf = [0u8; 8];
    let (reqs, out) = drive(&name, &mut buf, Some(1), Some(1), true, 1);
    assert_eq!(reqs, vec![HostRequest::Finish { fetched: None }]);
    assert_eq!(out, None);
}

#[test]
fn fetch_path_is_host_path() {
    let fetch = fetch_to_buf("root.json", META_BUF);
    assert_eq!(fetch.path(), b"stuf-examples/.generated/publisher-repo/root.json\0");
    assert_eq!(fetch.phase(), FetchPhase::Opening);
}

#[test]
fn fetch_rejects_out_of_order_reply() {
    let fetch = fetch_to_buf("root.json", FIRMWARE_BUF);
    assert!(!fetch.accepts(&HostReply::Closed));
    assert!(!fetch.accepts(&HostReply::Measured(Some(1))));
    assert!(fetch.accepts(&HostReply::Opened(None)));
}

#[test]
fn fetch_done_accepts_nothing() {
    let mut fetch = fetch_to_buf("root.json", 8);
    fetch.advance(HostReply::Opened(None));
    assert_eq!(fetch.phase(), FetchPhase::Done { fetched: None });
    assert!(!fetch.accepts(&HostReply::Opened(Some(1))));
    assert!(!fetch.accepts(&HostReply::Closed));
    assert_eq!(fetch.fetched(&[0u8; 8]), None);
}

#[test]
fn fetch_buffer_sizes() {
    assert_eq!(META_BUF, 4096);
    assert_eq!(FIRMWARE_BUF, 2048);
}
