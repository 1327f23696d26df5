use ethers::signers::{LocalWallet, Signer};
use ethers::types::transaction::eip712::{Eip712, TypedData};
use ethers::types::H256;
use hyperliquid_node_watcher::model::{Block, InnerBlock, Signature, SignedAction, SignedActions};
use hyperliquid_node_watcher::tx::{
    action_hash_from_encoded, agent_digest, encode_payload, signing_hash, Agent, TxError,
};

fn action() -> serde_json::Value {
    serde_json::from_str(r#"{"type":"cancel","cancels":[{"a":3,"o":42}]}"#).unwrap()
}

fn tx(vault: Option<[u8; 20]>, sig: Signature) -> SignedAction {
    SignedAction { signature: sig, vault_address: vault, action: action(), nonce: 1_700_000_000_000 }
}

fn zero_sig() -> Signature {
    Signature { r: [0u8; 32], s: [0u8; 32], v: 27 }
}

#[test]
fn payload_without_vault() {
    let p = encode_payload(vec![0xaa, 0xbb], 0x0102030405060708, None);
    assert_eq!(p, vec![0xaa, 0xbb, 1, 2, 3, 4, 5, 6, 7, 8, 0]);
}

#[test]
fn payload_with_vault() {
    let vault = [9u8; 20];
    let p = encode_payload(vec![], 258, Some(vault));
    let mut expected = vec![0, 0, 0, 0, 0, 0, 1, 2, 1];
    expected.extend_from_slice(&vault);
    assert_eq!(p, expected);
}

#[test]
fn action_hash_is_keccak_of_payload() {
    let h = action_hash_from_encoded(vec![0x80], 5, None);
    let expected = ethers::utils::keccak256([0x80, 0, 0, 0, 0, 0, 0, 0, 5, 0]);
    assert_eq!(h, expected);
}

#[test]
fn action_hash_uses_named_msgpack() {
    let t = tx(None, zero_sig());
    let encoded = rmp_serde::to_vec_named(&t.action).unwrap();
    assert_eq!(t.action_hash().unwrap(), action_hash_from_encoded(encoded, t.nonce, None));
}

#[test]
fn action_hash_is_deterministic() {
    let a = tx(Some([1u8; 20]), zero_sig());
    let b = tx(Some([1u8; 20]), Signature { r: [7u8; 32], s: [8u8; 32], v: 28 });
    assert_eq!(a.action_hash().unwrap(), b.action_hash().unwrap());
    assert_eq!(a.action_hash().unwrap(), a.action_hash().unwrap());
    let c = tx(None, zero_sig());
    assert_ne!(a.action_hash().unwrap(), c.action_hash().unwrap());
}

#[test]
fn agent_digest_matches_typed_data() {
    let conn = [0x11u8; 32];
    let json = format!(
        r#"{{"types":{{"EIP712Domain":[{{"name":"name","type":"string"}},{{"name":"version","type":"string"}},{{"name":"chainId","type":"uint256"}},{{"name":"verifyingContract","type":"address"}}],"Agent":[{{"name":"source","type":"string"}},{{"name":"connectionId","type":"bytes32"}}]}},"primaryType":"Agent","domain":{{"name":"Exchange","version":"1","chainId":1337,"verifyingContract":"0x0000000000000000000000000000000000000000"}},"message":{{"source":"b","connectionId":"0x{}"}}}}"#,
        "11".repeat(32)
    );
    let typed: TypedData = serde_json::from_str(&json).unwrap();
    assert_eq!(agent_digest("b", conn), typed.encode_eip712().unwrap());
    assert_eq!(signing_hash(conn), typed.encode_eip712().unwrap());
    let agent = Agent { source: "b".to_string(), connection_id: conn };
    assert_eq!(agent.encode_eip712(), typed.encode_eip712().unwrap());
    assert_ne!(agent_digest("a", conn), typed.encode_eip712().unwrap());
}

#[test]
fn vault_is_sender_whatever_the_signature() {
    let vault = [0x42u8; 20];
    assert_eq!(tx(Some(vault), zero_sig()).sender(), Ok(vault));
}

#[test]
fn sender_recovers_signing_key() {
    let wallet: LocalWallet =
        "4c0883a69102937d6231471b5dbb6204fe5129617082792ae468d01a3f362318".parse().unwrap();
    let mut t = tx(None, zero_sig());
    let h = t.hash().unwrap();
    let sig = wallet.sign_hash(H256(h)).unwrap();
    let mut r = [0u8; 32];
    let mut s = [0u8; 32];
    sig.r.to_big_endian(&mut r);
    sig.s.to_big_endian(&mut s);
    t.signature = Signature { r, s, v: sig.v };
    assert_eq!(t.sender(), Ok(wallet.address().0));
    // a different nonce changes the signed hash, so another address comes back
    t.nonce += 1;
    assert_ne!(t.sender(), Ok(wallet.address().0));
}

#[test]
fn unrecoverable_signature_is_an_error() {
    assert_eq!(tx(None, zero_sig()).sender(), Err(TxError::Recovery));
}

#[test]
fn txs_flattens_groups_in_order() {
    let mk = |n: u64| SignedAction { nonce: n, ..tx(None, zero_sig()) };
    let block = Block {
        block: InnerBlock {
            time: "t".to_string(),
            raw_height: 1,
            signed_actions: vec![
                SignedActions([1u8; 32], vec![mk(1), mk(2)]),
                SignedActions([2u8; 32], vec![]),
                SignedActions([3u8; 32], vec![mk(3)]),
            ],
        },
        app_hash: vec![],
        height: 1,
    };
    let nonces: Vec<u64> = block.txs().iter().map(|t| t.nonce).collect();
    assert_eq!(nonces, vec![1, 2, 3]);
}

#[test]
fn deeply_nested_action_still_hashes() {
    let mut deep = serde_json::Value::Null;
    for _ in 0..1100 {
        deep = serde_json::Value::Array(vec![deep]);
    }
    let t = SignedAction { action: deep, ..tx(None, zero_sig()) };
    let encoded = rmp_serde::to_vec_named(&t.action).unwrap();
    assert_eq!(t.action_hash(), Ok(action_hash_from_encoded(encoded, t.nonce, None)));
    assert_eq!(t.hash(), Ok(signing_hash(t.action_hash().unwrap())));
    let with_vault = SignedAction { vault_address: Some([3u8; 20]), ..t };
    assert_eq!(with_vault.sender(), Ok([3u8; 20]));
}
