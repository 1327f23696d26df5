use hyperliquid_node_watcher::lines::split_complete_lines;
use hyperliquid_node_watcher::tail::TailState;

fn path(s: &str) -> String {
    s.to_string()
}

#[test]
fn split_keeps_partial_tail() {
    let (lines, used) = split_complete_lines(b"ab\ncd\nef");
    assert_eq!(lines, vec![b"ab".to_vec(), b"cd".to_vec()]);
    assert_eq!(used, 6);
}

#[test]
fn split_empty_and_blank_lines() {
    let (lines, used) = split_complete_lines(b"");
    assert!(lines.is_empty());
    assert_eq!(used, 0);
    let (lines, used) = split_complete_lines(b"\n\nx");
    assert_eq!(lines, vec![Vec::<u8>::new(), Vec::new()]);
    assert_eq!(used, 2);
}

#[test]
fn start_skips_existing_bytes() {
    let st = TailState::start(path("/log/a"), 120);
    assert_eq!(st.offset, 120);
    assert_eq!(st.active_path, "/log/a");
}

#[test]
fn other_events_change_nothing() {
    let mut st = TailState::start(path("/log/a"), 7);
    assert_eq!(st.on_event(false, &vec![path("/log/b")]), None);
    assert_eq!(st.on_event(true, &vec![]), None);
    assert_eq!(st.offset, 7);
    assert_eq!(st.active_path, "/log/a");
}

#[test]
fn appended_lines_delivered_once_in_order() {
    // a file of 10 bytes before the start, then three writes
    let mut file: Vec<u8> = b"old line\n\n".to_vec();
    let mut st = TailState::start(path("/log/a"), file.len() as u64);
    let mut seen: Vec<Vec<u8>> = Vec::new();
    for chunk in [&b"{\"a\":1}\n{\"b"[..], &b"\":2}\n"[..], &b"third\nfour"[..]] {
        file.extend_from_slice(chunk);
        let at = st.on_event(true, &vec![path("/log/a")]).unwrap() as usize;
        seen.extend(st.on_read(&file[at..]));
    }
    assert_eq!(
        seen,
        vec![b"{\"a\":1}".to_vec(), b"{\"b\":2}".to_vec(), b"third".to_vec()]
    );
    assert_eq!(st.offset as usize, file.len() - 4);
}

#[test]
fn rotation_reads_new_file_from_start() {
    let mut st = TailState::start(path("/log/a"), 500);
    let at = st.on_event(true, &vec![path("/log/b")]).unwrap();
    assert_eq!(at, 0);
    assert_eq!(st.active_path, "/log/b");
    let lines = st.on_read(b"first\nsecond\n");
    assert_eq!(lines, vec![b"first".to_vec(), b"second".to_vec()]);
    assert_eq!(st.offset, 13);
    // the same path again keeps the offset
    assert_eq!(st.on_event(true, &vec![path("/log/b")]), Some(13));
}
