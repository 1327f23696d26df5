use hyperliquid_node_watcher::decode::decode_line;

const SIG: &str = r#"{"r":"0x1","s":"0x2","v":27}"#;

#[test]
fn non_record_lines_are_skipped() {
    assert!(decode_line("").is_none());
    assert!(decode_line("not-json").is_none());
    assert!(decode_line(" {\"block\":1}").is_none());
}

#[test]
fn scenario_two_blocks_and_noise() {
    let lines = [
        r#"{"block":{"time":"t1","raw_height":1,"signed_actions":[]},"app_hash":[],"height":1}"#,
        "not-json",
        r#"{"block":{"time":"t2","raw_height":2,"signed_actions":[]},"app_hash":[],"height":2}"#,
    ];
    let out: Vec<_> = lines.iter().filter_map(|l| decode_line(l)).collect();
    assert_eq!(out.len(), 2);
    assert_eq!(out[0].as_ref().unwrap().height, 1);
    assert_eq!(out[0].as_ref().unwrap().block.time, "t1");
    assert_eq!(out[1].as_ref().unwrap().height, 2);
    assert_eq!(out[1].as_ref().unwrap().block.raw_height, 2);
}

#[test]
fn scenario_invalid_record_is_an_error_between_blocks() {
    let lines = [
        r#"{"block":{"time":"t1","raw_height":1,"signed_actions":[]},"app_hash":[],"height":1}"#,
        "{not-json",
        r#"{"block":{"time":"t2","raw_height":2,"signed_actions":[]},"app_hash":[],"height":2}"#,
    ];
    let out: Vec<_> = lines.iter().filter_map(|l| decode_line(l)).collect();
    assert_eq!(out.len(), 3);
    assert_eq!(out[0].as_ref().unwrap().height, 1);
    assert_eq!(out[1].as_ref().unwrap_err().line, "{not-json");
    assert_eq!(out[2].as_ref().unwrap().height, 2);
}

#[test]
fn missing_field_carries_line() {
    let line = r#"{"block":{"time":"t1","raw_height":1,"signed_actions":[]},"app_hash":[]}"#;
    let err = decode_line(line).unwrap().unwrap_err();
    assert_eq!(err.line, line);
    assert!(err.cause.contains("height"));
}

#[test]
fn wrong_type_is_an_error() {
    let line = r#"{"block":{"time":5,"raw_height":1,"signed_actions":[]},"app_hash":[],"height":1}"#;
    assert!(decode_line(line).unwrap().is_err());
    let line = r#"{"block":{"time":"t","raw_height":1,"signed_actions":[]},"app_hash":[256],"height":1}"#;
    assert!(decode_line(line).unwrap().is_err());
}

#[test]
fn block_with_transactions() {
    let line = format!(
        r#"{{"block":{{"time":"2024-01-01T00:00:00","raw_height":9,"signed_actions":[["0x{}",[{{"signature":{},"vaultAddress":null,"action":{{"type":"noop"}},"nonce":5}},{{"signature":{},"vaultAddress":"0x{}","action":{{"type":"noop"}},"nonce":6}}]]]}},"app_hash":[1,2,255],"height":8}}"#,
        "ab".repeat(32),
        SIG,
        SIG,
        "cd".repeat(20)
    );
    let b = decode_line(&line).unwrap().unwrap();
    assert_eq!(b.height, 8);
    assert_eq!(b.block.raw_height, 9);
    assert_eq!(b.block.time, "2024-01-01T00:00:00");
    assert_eq!(b.app_hash, vec![1, 2, 255]);
    assert_eq!(b.block.signed_actions[0].0, [0xab; 32]);
    let txs = b.txs();
    assert_eq!(txs.len(), 2);
    assert_eq!(txs[0].vault_address, None);
    assert_eq!(txs[0].nonce, 5);
    assert_eq!(txs[0].signature.r[31], 1);
    assert_eq!(txs[0].signature.s[31], 2);
    assert_eq!(txs[0].signature.v, 27);
    assert_eq!(txs[1].vault_address, Some([0xcd; 20]));
    assert_eq!(txs[1].sender(), Ok([0xcd; 20]));
}

#[test]
fn decoded_block_round_trips() {
    let written =
        r#"{"block":{"time":"t3","raw_height":30,"signed_actions":[]},"app_hash":[4,5],"height":31}"#;
    let b = decode_line(written).unwrap().unwrap();
    let again = format!(
        r#"{{"block":{{"time":"{}","raw_height":{},"signed_actions":[]}},"app_hash":{},"height":{}}}"#,
        b.block.time,
        b.block.raw_height,
        serde_json::to_string(&b.app_hash).unwrap(),
        b.height
    );
    assert_eq!(again, written);
    let b2 = decode_line(&again).unwrap().unwrap();
    assert_eq!((b2.block.time, b2.block.raw_height, b2.app_hash, b2.height), ("t3".to_string(), 30, vec![4, 5], 31));
}
