use vstd::prelude::*;
use vstd::utf8::encode_utf8;
use crate::model::{Signature, SignedAction};

verus! {

#[verifier::external_type_specification]
#[verifier::external_body]
pub struct ExEncodeError(rmp_serde::encode::Error);

#[verifier::external_type_specification]
#[verifier::external_body]
pub struct ExSignatureError(ethers::types::SignatureError);

/// Why a transaction's hash or sender could not be computed.
#[derive(Clone, Copy, Debug, PartialEq, Eq, Structural)]
pub enum TxError {
    /// The action has no MessagePack encoding.
    Encoding,
    /// No signer can be recovered from the signature.
    Recovery,
}

/// The Keccak-256 digest of a byte string.
pub uninterp spec fn keccak_of(b: Seq<u8>) -> Seq<u8>;

/// The MessagePack encoding of a JSON value, maps written with their keys in order, where the
/// value has one.
pub uninterp spec fn msgpack_named_of(v: serde_json::Value) -> Option<Seq<u8>>;

/// The EIP-712 separator of a domain given by name, version, chain id and verifying contract.
pub uninterp spec fn domain_separator_of(
    name: Seq<char>,
    version: Seq<char>,
    chain_id: u64,
    verifying_contract: Seq<u8>,
) -> Seq<u8>;

/// The address whose key made signature `(r, s, v)` over the 32-byte `hash`, if there is one.
pub uninterp spec fn recovered_signer_of(r: Seq<u8>, s: Seq<u8>, v: u64, hash: Seq<u8>) -> Option<
    Seq<u8>,
>;

/// Relies on ethers::utils::keccak256: the Keccak-256 digest of the bytes.
#[verifier::external_body]
fn keccak(b: &[u8]) -> (r: [u8; 32])
    ensures
        r@ == keccak_of(b@),
{
    ethers::utils::keccak256(b)
}

/// Relies on rmp_serde::to_vec_named: the encoding with map keys by name; whether it
/// succeeds depends on the value alone.
#[verifier::external_body]
fn msgpack_named(v: &serde_json::Value) -> (r: Result<Vec<u8>, rmp_serde::encode::Error>)
    ensures
        r is Ok <==> msgpack_named_of(*v) is Some,
        r is Ok ==> msgpack_named_of(*v) == Some(r->Ok_0@),
{
    rmp_serde::to_vec_named(v)
}

/// Relies on ethers' EIP712Domain::separator, for a domain with every field but the salt.
#[verifier::external_body]
fn domain_separator(name: &str, version: &str, chain_id: u64, verifying_contract: [u8; 20]) -> (r:
    [u8; 32])
    ensures
        r@ == domain_separator_of(name@, version@, chain_id, verifying_contract@),
{
    ethers::types::transaction::eip712::EIP712Domain {
        name: Some(name.to_string()),
        version: Some(version.to_string()),
        chain_id: Some(ethers::types::U256::from(chain_id)),
        verifying_contract: Some(ethers::types::Address::from(verifying_contract)),
        salt: None,
    }.separator()
}

/// Relies on ethers' Signature::recover over a prehashed message: it fails exactly when no
/// signer can be recovered, and otherwise gives that signer's address.
#[verifier::external_body]
fn recover_signer(sig: Signature, hash: [u8; 32]) -> (r: Result<
    [u8; 20],
    ethers::types::SignatureError,
>)
    ensures
        r is Ok <==> recovered_signer_of(sig.r@, sig.s@, sig.v, hash@) is Some,
        r is Ok ==> recovered_signer_of(sig.r@, sig.s@, sig.v, hash@) == Some(r->Ok_0@),
{
    let signature = ethers::types::Signature {
        r: ethers::types::U256::from_big_endian(&sig.r),
        s: ethers::types::U256::from_big_endian(&sig.s),
        v: sig.v,
    };
    signature.recover(ethers::types::H256(hash)).map(|a| a.to_fixed_bytes())
}

/// The eight big-endian bytes of `n`.
pub open spec fn be_bytes_u64(n: u64) -> Seq<u8> {
    seq![
        (n >> 56u64) as u8,
        (n >> 48u64) as u8,
        (n >> 40u64) as u8,
        (n >> 32u64) as u8,
        (n >> 24u64) as u8,
        (n >> 16u64) as u8,
        (n >> 8u64) as u8,
        n as u8,
    ]
}

/// `1` and the address for a vault, `0` for none.
pub open spec fn vault_tag(vault: Option<[u8; 20]>) -> Seq<u8> {
    match vault {
        Some(a) => seq![1u8] + a@,
        None => seq![0u8],
    }
}

/// The bytes that a transaction's hash is taken over.
pub open spec fn canonical_payload(action: Seq<u8>, nonce: u64, vault: Option<[u8; 20]>) -> Seq<
    u8,
> {
    action + be_bytes_u64(nonce) + vault_tag(vault)
}

/// The content hash of a transaction whose action encodes as `action`.
pub open spec fn action_hash_of(action: Seq<u8>, nonce: u64, vault: Option<[u8; 20]>) -> Seq<u8> {
    keccak_of(canonical_payload(action, nonce, vault))
}

/// The content hash of a transaction, or `None` where its action has no encoding.
pub open spec fn tx_action_hash(tx: SignedAction) -> Option<Seq<u8>> {
    match msgpack_named_of(tx.action) {
        Some(e) => Some(action_hash_of(e, tx.nonce, tx.vault_address)),
        None => None,
    }
}

/// The name of the signing domain.
pub const DOMAIN_NAME: &'static str = "Exchange";

/// The version of the signing domain.
pub const DOMAIN_VERSION: &'static str = "1";

/// The chain id of the signing domain.
pub const DOMAIN_CHAIN_ID: u64 = 1337;

/// The source label that every signed agent carries.
pub const AGENT_SOURCE: &'static str = "b";

/// The EIP-712 type of the signed agent.
pub const AGENT_TYPE: &'static str = "Agent(string source,bytes32 connectionId)";

/// The separator of the fixed signing domain; its verifying contract is the zero address.
pub open spec fn exchange_domain() -> Seq<u8> {
    domain_separator_of(DOMAIN_NAME@, DOMAIN_VERSION@, DOMAIN_CHAIN_ID, Seq::new(20, |i: int| 0u8))
}

/// The EIP-712 struct hash of an agent with the given source and connection id.
pub open spec fn agent_struct_hash(source: Seq<char>, connection_id: Seq<u8>) -> Seq<u8> {
    keccak_of(keccak_of(encode_utf8(AGENT_TYPE@)) + keccak_of(encode_utf8(source)) + connection_id)
}

/// The EIP-712 digest of a struct hash under a domain separator.
pub open spec fn typed_data_digest(domain: Seq<u8>, struct_hash: Seq<u8>) -> Seq<u8> {
    keccak_of(seq![0x19u8, 0x01u8] + domain + struct_hash)
}

/// The hash that the originator of a transaction with content hash `action_hash` signed.
pub open spec fn signing_hash_of(action_hash: Seq<u8>) -> Seq<u8> {
    typed_data_digest(exchange_domain(), agent_struct_hash(AGENT_SOURCE@, action_hash))
}

/// The hash that a transaction's originator signed, or `None` where its action has no
/// encoding.
pub open spec fn tx_signing_hash(tx: SignedAction) -> Option<Seq<u8>> {
    match tx_action_hash(tx) {
        Some(h) => Some(signing_hash_of(h)),
        None => None,
    }
}

/// The sender of a transaction: its vault if it names one, else the signer recovered from
/// the signature over the signing hash; the error says which step failed.
pub open spec fn sender_of(tx: SignedAction) -> Result<Seq<u8>, TxError> {
    match tx.vault_address {
        Some(a) => Ok(a@),
        None => match tx_signing_hash(tx) {
            None => Err(TxError::Encoding),
            Some(h) => match recovered_signer_of(tx.signature.r@, tx.signature.s@, tx.signature.v, h) {
                Some(a) => Ok(a),
                None => Err(TxError::Recovery),
            },
        },
    }
}

/// Appends `b` to `out`.
fn extend_bytes(out: &mut Vec<u8>, b: &[u8])
    ensures
        final(out)@ == old(out)@ + b@,
{
    let mut i: usize = 0;
    while i < b.len()
        invariant
            0 <= i <= b@.len(),
            out@ == old(out)@ + b@.subrange(0, i as int),
        decreases b@.len() - i,
    {
        out.push(b[i]);
        assert(b@.subrange(0, i + 1) =~= b@.subrange(0, i as int).push(b@[i as int]));
        i = i + 1;
    }
    assert(b@.subrange(0, b@.len() as int) =~= b@);
}

/// Extends the encoded action with the nonce's eight big-endian bytes and the vault tag.
pub fn encode_payload(action: Vec<u8>, nonce: u64, vault: Option<[u8; 20]>) -> (r: Vec<u8>)
    ensures
        r@ == canonical_payload(action@, nonce, vault),
{
    let mut out = action;
    out.push((nonce >> 56u64) as u8);
    out.push((nonce >> 48u64) as u8);
    out.push((nonce >> 40u64) as u8);
    out.push((nonce >> 32u64) as u8);
    out.push((nonce >> 24u64) as u8);
    out.push((nonce >> 16u64) as u8);
    out.push((nonce >> 8u64) as u8);
    out.push(nonce as u8);
    let ghost with_nonce = out@;
    assert(with_nonce =~= action@ + be_bytes_u64(nonce));
    match vault {
        Some(a) => {
            out.push(1u8);
            extend_bytes(&mut out, &a);
            assert(out@ =~= with_nonce + vault_tag(vault));
        },
        None => {
            out.push(0u8);
            assert(out@ =~= with_nonce + vault_tag(vault));
        },
    }
    out
}

/// The content hash of a transaction whose action encodes as `action`.
pub fn action_hash_from_encoded(action: Vec<u8>, nonce: u64, vault: Option<[u8; 20]>) -> (r: [u8;
    32])
    ensures
        r@ == action_hash_of(action@, nonce, vault),
{
    let payload = encode_payload(action, nonce, vault);
    keccak(payload.as_slice())
}

/// The EIP-712 digest of an agent with the given source and connection id, under the fixed
/// signing domain.
pub fn agent_digest(source: &str, connection_id: [u8; 32]) -> (r: [u8; 32])
    ensures
        r@ == typed_data_digest(exchange_domain(), agent_struct_hash(source@, connection_id@)),
{
    let zero: [u8; 20] = [0u8; 20];
    assert(zero@ =~= Seq::new(20, |i: int| 0u8)) by {
        broadcast use vstd::array::axiom_spec_array_fill_for_copy_type;

    }
    let domain = domain_separator(DOMAIN_NAME, DOMAIN_VERSION, DOMAIN_CHAIN_ID, zero);
    let type_hash = keccak(AGENT_TYPE.as_bytes());
    let source_hash = keccak(source.as_bytes());
    let mut fields: Vec<u8> = Vec::new();
    extend_bytes(&mut fields, &type_hash);
    extend_bytes(&mut fields, &source_hash);
    extend_bytes(&mut fields, &connection_id);
    let struct_hash = keccak(fields.as_slice());
    let mut digest_input: Vec<u8> = Vec::new();
    digest_input.push(0x19u8);
    digest_input.push(0x01u8);
    extend_bytes(&mut digest_input, &domain);
    extend_bytes(&mut digest_input, &struct_hash);
    assert(digest_input@ =~= seq![0x19u8, 0x01u8] + domain@ + struct_hash@);
    keccak(digest_input.as_slice())
}

/// The typed-data message that a transaction's originator signs: a source label and the
/// transaction's content hash as connection id.
#[derive(Clone, Debug)]
pub struct Agent {
    pub source: String,
    pub connection_id: [u8; 32],
}

impl Agent {
    /// The EIP-712 digest of this message under the fixed signing domain.
    pub fn encode_eip712(&self) -> (r: [u8; 32])
        ensures
            r@ == typed_data_digest(
                exchange_domain(),
                agent_struct_hash(self.source@, self.connection_id@),
            ),
    {
        agent_digest(self.source.as_str(), self.connection_id)
    }
}

/// The hash that the originator of a transaction with content hash `action_hash` signed.
pub fn signing_hash(action_hash: [u8; 32]) -> (r: [u8; 32])
    ensures
        r@ == signing_hash_of(action_hash@),
{
    let agent = Agent { source: AGENT_SOURCE.to_owned(), connection_id: action_hash };
    agent.encode_eip712()
}

/// The sender of a transaction with content hash `action_hash`: the vault if one is named,
/// else the address recovered from the signature over the signing hash.
pub fn sender_from_action_hash(
    signature: Signature,
    vault: Option<[u8; 20]>,
    action_hash: [u8; 32],
) -> (r: Result<[u8; 20], TxError>)
    ensures
        vault is Some ==> r == Ok::<[u8; 20], TxError>(vault->Some_0),
        vault is None ==> (r is Ok <==> recovered_signer_of(
            signature.r@,
            signature.s@,
            signature.v,
            signing_hash_of(action_hash@),
        ) is Some),
        vault is None && r is Ok ==> recovered_signer_of(
            signature.r@,
            signature.s@,
            signature.v,
            signing_hash_of(action_hash@),
        ) == Some(r->Ok_0@),
        r is Err ==> r->Err_0 == TxError::Recovery,
{
    match vault {
        Some(a) => Ok(a),
        None => {
            let h = signing_hash(action_hash);
            match recover_signer(signature, h) {
                Ok(addr) => Ok(addr),
                Err(_) => Err(TxError::Recovery),
            }
        },
    }
}

/// The content hash is a function of the action, the nonce and the vault alone: two
/// transactions that agree on these have the same hash, whatever their signatures.
pub proof fn lemma_action_hash_deterministic(a: SignedAction, b: SignedAction)
    requires
        a.action == b.action,
        a.nonce == b.nonce,
        a.vault_address == b.vault_address,
    ensures
        tx_action_hash(a) == tx_action_hash(b),
        tx_signing_hash(a) == tx_signing_hash(b),
{
}

/// A transaction that names a vault has that vault as its sender, whatever its signature.
pub proof fn lemma_vault_is_sender(tx: SignedAction)
    requires
        tx.vault_address is Some,
    ensures
        sender_of(tx) == Ok::<Seq<u8>, TxError>(tx.vault_address->Some_0@),
{
}

impl SignedAction {
    /// The content hash: Keccak-256 over the action's MessagePack encoding, the nonce and
    /// the vault tag. Fails exactly where the action cannot be encoded.
    pub fn action_hash(&self) -> (r: Result<[u8; 32], TxError>)
        ensures
            r is Ok <==> tx_action_hash(*self) is Some,
            r is Ok ==> tx_action_hash(*self) == Some(r->Ok_0@),
            r is Err ==> r->Err_0 == TxError::Encoding,
    {
        match msgpack_named(&self.action) {
            Ok(encoded) => Ok(action_hash_from_encoded(encoded, self.nonce, self.vault_address)),
            Err(_) => Err(TxError::Encoding),
        }
    }

    /// The hash that the transaction's originator signed. Fails exactly where the action
    /// cannot be encoded.
    pub fn hash(&self) -> (r: Result<[u8; 32], TxError>)
        ensures
            r is Ok <==> tx_signing_hash(*self) is Some,
            r is Ok ==> tx_signing_hash(*self) == Some(r->Ok_0@),
            r is Err ==> r->Err_0 == TxError::Encoding,
    {
        match self.action_hash() {
            Ok(h) => Ok(signing_hash(h)),
            Err(e) => Err(e),
        }
    }

    /// The sender: the vault address where one is given, whatever the signature; else the
    /// signer recovered from the signature over the signing hash.
    pub fn sender(&self) -> (r: Result<[u8; 20], TxError>)
        ensures
            self.vault_address is Some ==> r == Ok::<[u8; 20], TxError>(
                self.vault_address->Some_0,
            ),
            r is Ok ==> sender_of(*self) == Ok::<Seq<u8>, TxError>(r->Ok_0@),
            r is Err ==> sender_of(*self) == Err::<Seq<u8>, TxError>(r->Err_0),
    {
        match self.vault_address {
            Some(a) => Ok(a),
            None => match self.hash() {
                Ok(h) => match recover_signer(self.signature, h) {
                    Ok(addr) => Ok(addr),
                    Err(_) => Err(TxError::Recovery),
                },
                Err(e) => Err(e),
            },
        }
    }
}

} // verus!
