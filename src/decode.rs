use vstd::prelude::*;
use vstd::string::StringSliceAdditionalSpecFns;
use crate::model::{Block, InnerBlock, Signature, SignedAction, SignedActions};

verus! {

#[verifier::external_type_specification]
#[verifier::external_body]
pub struct ExJsonError(serde_json::Error);

/// The value of the JSON text `s`, where it is one.
pub uninterp spec fn json_of(s: Seq<char>) -> Option<serde_json::Value>;

/// The value that a JSON pointer picks out of `v`, where there is one.
pub uninterp spec fn json_pointer_of(v: serde_json::Value, pointer: Seq<char>) -> Option<
    serde_json::Value,
>;

/// The number that `v` is, where it is an unsigned integer that fits in 64 bits.
pub uninterp spec fn json_u64_of(v: serde_json::Value) -> Option<u64>;

/// The text that `v` is, where it is a string.
pub uninterp spec fn json_str_of(v: serde_json::Value) -> Option<Seq<char>>;

/// The elements of `v`, where it is an array.
pub uninterp spec fn json_array_of(v: serde_json::Value) -> Option<Seq<serde_json::Value>>;

/// The signature `(r, s, v)` that `v` reads as, the scalars as 32 big-endian bytes.
pub uninterp spec fn json_signature_of(v: serde_json::Value) -> Option<(Seq<u8>, Seq<u8>, u64)>;

/// The optional 20-byte address that `v` reads as (`null` for none).
pub uninterp spec fn json_address_of(v: serde_json::Value) -> Option<Option<Seq<u8>>>;

/// The 32-byte hash that `v` reads as.
pub uninterp spec fn json_h256_of(v: serde_json::Value) -> Option<Seq<u8>>;

/// Relies on serde_json's Value::pointer: the value at a JSON pointer, if there is one.
pub assume_specification<'a>[ serde_json::Value::pointer ](
    v: &'a serde_json::Value,
    pointer: &str,
) -> (r: Option<&'a serde_json::Value>)
    ensures
        r is Some <==> json_pointer_of(*v, pointer@) is Some,
        r is Some ==> json_pointer_of(*v, pointer@) == Some(*r->Some_0),
;

/// Relies on serde_json's Value::as_u64: the number, where the value is an unsigned integer.
pub assume_specification[ serde_json::Value::as_u64 ](v: &serde_json::Value) -> (r: Option<u64>)
    ensures
        r == json_u64_of(*v),
;

/// Relies on serde_json's Value::as_str: the text, where the value is a string.
pub assume_specification<'a>[ serde_json::Value::as_str ](v: &'a serde_json::Value) -> (r: Option<
    &'a str,
>)
    ensures
        r is Some <==> json_str_of(*v) is Some,
        r is Some ==> json_str_of(*v) == Some(r->Some_0@),
;

/// Relies on serde_json's Value::as_array: the elements, where the value is an array.
pub assume_specification<'a>[ serde_json::Value::as_array ](v: &'a serde_json::Value) -> (r: Option<
    &'a Vec<serde_json::Value>,
>)
    ensures
        r is Some <==> json_array_of(*v) is Some,
        r is Some ==> json_array_of(*v) == Some(r->Some_0@),
;

/// Relies on serde_json::from_str, to read a line as one JSON value; the outcome depends on
/// the text alone.
#[verifier::external_body]
fn parse_json(line: &str) -> (r: Result<serde_json::Value, serde_json::Error>)
    ensures
        r is Ok <==> json_of(line@) is Some,
        r is Ok ==> json_of(line@) == Some(r->Ok_0),
{
    serde_json::from_str(line)
}

/// Relies on the `Display` of serde_json::Error, for the text of a parse failure.
#[verifier::external_body]
fn json_error_text(e: &serde_json::Error) -> (r: String) {
    e.to_string()
}

/// Relies on the `Deserialize` of ethers' Signature: `r` and `s` as hex quantities and `v`
/// as a number; the scalars are handed back as 32 big-endian bytes.
#[verifier::external_body]
fn signature_from_json(v: &serde_json::Value) -> (r: Result<Signature, serde_json::Error>)
    ensures
        r is Ok <==> json_signature_of(*v) is Some,
        r is Ok ==> json_signature_of(*v) == Some((r->Ok_0.r@, r->Ok_0.s@, r->Ok_0.v)),
{
    let sig: ethers::types::Signature = serde_json::from_value(v.clone())?;
    let mut r = [0u8; 32];
    let mut s = [0u8; 32];
    sig.r.to_big_endian(&mut r);
    sig.s.to_big_endian(&mut s);
    Ok(Signature { r, s, v: sig.v })
}

/// The view of an optional address.
pub open spec fn address_view(a: Option<[u8; 20]>) -> Option<Seq<u8>> {
    match a {
        Some(x) => Some(x@),
        None => None,
    }
}

/// Relies on the `Deserialize` of ethers' Address (a hex string of 20 bytes), for an
/// optional address where `null` stands for none.
#[verifier::external_body]
fn address_from_json(v: &serde_json::Value) -> (r: Result<Option<[u8; 20]>, serde_json::Error>)
    ensures
        r is Ok <==> json_address_of(*v) is Some,
        r is Ok ==> json_address_of(*v) == Some(address_view(r->Ok_0)),
{
    let a: Option<ethers::types::Address> = serde_json::from_value(v.clone())?;
    Ok(a.map(|x| x.0))
}

/// Relies on the `Deserialize` of ethers' H256 (a hex string of 32 bytes).
#[verifier::external_body]
fn hash_from_json(v: &serde_json::Value) -> (r: Result<[u8; 32], serde_json::Error>)
    ensures
        r is Ok <==> json_h256_of(*v) is Some,
        r is Ok ==> json_h256_of(*v) == Some(r->Ok_0@),
{
    let h: ethers::types::H256 = serde_json::from_value(v.clone())?;
    Ok(h.0)
}

/// What a decoded transaction holds.
pub struct TxView {
    pub r: Seq<u8>,
    pub s: Seq<u8>,
    pub v: u64,
    pub vault: Option<Seq<u8>>,
    pub action: serde_json::Value,
    pub nonce: u64,
}

/// What a decoded group holds.
pub struct GroupView {
    pub id: Seq<u8>,
    pub txs: Seq<TxView>,
}

/// What a decoded block holds.
pub struct BlockView {
    pub time: Seq<char>,
    pub raw_height: u64,
    pub groups: Seq<GroupView>,
    pub app_hash: Seq<u8>,
    pub height: u64,
}

/// What a transaction holds.
pub open spec fn tx_view(t: SignedAction) -> TxView {
    TxView {
        r: t.signature.r@,
        s: t.signature.s@,
        v: t.signature.v,
        vault: address_view(t.vault_address),
        action: t.action,
        nonce: t.nonce,
    }
}

/// What a group holds.
pub open spec fn group_view(g: SignedActions) -> GroupView {
    GroupView { id: g.0@, txs: g.1@.map_values(|t: SignedAction| tx_view(t)) }
}

/// What a block holds.
pub open spec fn block_view(b: Block) -> BlockView {
    BlockView {
        time: b.block.time@,
        raw_height: b.block.raw_height,
        groups: b.block.signed_actions@.map_values(|g: SignedActions| group_view(g)),
        app_hash: b.app_hash@,
        height: b.height,
    }
}

/// The unsigned integer at `pointer` in `v`.
pub open spec fn u64_at(v: serde_json::Value, pointer: Seq<char>) -> Option<u64> {
    match json_pointer_of(v, pointer) {
        Some(x) => json_u64_of(x),
        None => None,
    }
}

/// The string at `pointer` in `v`.
pub open spec fn str_at(v: serde_json::Value, pointer: Seq<char>) -> Option<Seq<char>> {
    match json_pointer_of(v, pointer) {
        Some(x) => json_str_of(x),
        None => None,
    }
}

/// The vault of a transaction object: none where the field is absent.
pub open spec fn vault_of(v: serde_json::Value) -> Option<Option<Seq<u8>>> {
    match json_pointer_of(v, "/vaultAddress"@) {
        Some(a) => json_address_of(a),
        None => Some(None),
    }
}

/// The transaction that a JSON value describes, where it describes one.
pub open spec fn tx_of(v: serde_json::Value) -> Option<TxView> {
    match (json_pointer_of(v, "/signature"@), vault_of(v), json_pointer_of(v, "/action"@), u64_at(v, "/nonce"@)) {
        (Some(sv), Some(vault), Some(action), Some(nonce)) => match json_signature_of(sv) {
            Some(sig) => Some(TxView { r: sig.0, s: sig.1, v: sig.2, vault, action, nonce }),
            None => None,
        },
        _ => None,
    }
}

/// The transactions of an array, where every element describes one.
pub open spec fn txs_of(items: Seq<serde_json::Value>) -> Option<Seq<TxView>> {
    if forall|i: int| 0 <= i < items.len() ==> (#[trigger] tx_of(items[i])) is Some {
        Some(Seq::new(items.len(), |i: int| tx_of(items[i])->Some_0))
    } else {
        None
    }
}

/// The group that a JSON value describes: an array of an id and an array of transactions.
pub open spec fn group_of(v: serde_json::Value) -> Option<GroupView> {
    match json_array_of(v) {
        Some(pair) => if pair.len() == 2 {
            match (json_h256_of(pair[0]), json_array_of(pair[1])) {
                (Some(id), Some(items)) => match txs_of(items) {
                    Some(txs) => Some(GroupView { id, txs }),
                    None => None,
                },
                _ => None,
            }
        } else {
            None
        },
        None => None,
    }
}

/// The groups of an array, where every element describes one.
pub open spec fn groups_of(items: Seq<serde_json::Value>) -> Option<Seq<GroupView>> {
    if forall|i: int| 0 <= i < items.len() ==> (#[trigger] group_of(items[i])) is Some {
        Some(Seq::new(items.len(), |i: int| group_of(items[i])->Some_0))
    } else {
        None
    }
}

/// The byte that a JSON value is, where it is an integer up to 255.
pub open spec fn byte_of(v: serde_json::Value) -> Option<u8> {
    match json_u64_of(v) {
        Some(n) => if n <= 255 {
            Some(n as u8)
        } else {
            None
        },
        None => None,
    }
}

/// The bytes that a JSON value lists, where it is an array of bytes.
pub open spec fn bytes_of(v: serde_json::Value) -> Option<Seq<u8>> {
    match json_array_of(v) {
        Some(items) => if forall|i: int| 0 <= i < items.len() ==> (#[trigger] byte_of(items[i])) is Some {
            Some(Seq::new(items.len(), |i: int| byte_of(items[i])->Some_0))
        } else {
            None
        },
        None => None,
    }
}

/// The block that a JSON value describes, where it describes one: every required field is
/// present with its type.
pub open spec fn block_of(v: serde_json::Value) -> Option<BlockView> {
    match (str_at(v, "/block/time"@), u64_at(v, "/block/raw_height"@), json_pointer_of(v, "/block/signed_actions"@), json_pointer_of(v, "/app_hash"@), u64_at(v, "/height"@)) {
        (Some(time), Some(raw_height), Some(gs), Some(ah), Some(height)) => match json_array_of(gs) {
            Some(items) => match (groups_of(items), bytes_of(ah)) {
                (Some(groups), Some(app_hash)) => Some(BlockView { time, raw_height, groups, app_hash, height }),
                _ => None,
            },
            None => None,
        },
        _ => None,
    }
}

/// The block that a line of text describes, where it is JSON that describes one.
pub open spec fn line_block_of(line: Seq<char>) -> Option<BlockView> {
    match json_of(line) {
        Some(v) => block_of(v),
        None => None,
    }
}

/// A line that is a candidate record but not a valid block, with the reason.
#[derive(Clone, Debug)]
pub struct ParseError {
    pub line: String,
    pub cause: String,
}

/// The first byte of `{`, which opens every record line.
pub const RECORD_START: u8 = 0x7b;

/// Whether a line is a candidate record: its first byte opens a JSON object.
pub open spec fn is_record_line(line: Seq<u8>) -> bool {
    line.len() > 0 && line[0] == RECORD_START
}

/// Whether `line` is a candidate record.
pub fn is_record(line: &str) -> (r: bool)
    ensures
        r == is_record_line(line.spec_bytes()),
{
    let b = line.as_bytes();
    b.len() > 0 && b[0] == RECORD_START
}

fn required<'a>(v: &'a serde_json::Value, pointer: &str, what: &str) -> (r: Result<
    &'a serde_json::Value,
    String,
>)
    ensures
        r is Ok <==> json_pointer_of(*v, pointer@) is Some,
        r is Ok ==> json_pointer_of(*v, pointer@) == Some(*r->Ok_0),
        r is Err ==> r->Err_0@ == what@,
{
    match v.pointer(pointer) {
        Some(x) => Ok(x),
        None => Err(what.to_owned()),
    }
}

fn required_u64(v: &serde_json::Value, pointer: &str, what: &str) -> (r: Result<u64, String>)
    ensures
        r is Ok <==> u64_at(*v, pointer@) is Some,
        r is Ok ==> u64_at(*v, pointer@) == Some(r->Ok_0),
{
    match required(v, pointer, what) {
        Ok(x) => match x.as_u64() {
            Some(n) => Ok(n),
            None => Err(what.to_owned()),
        },
        Err(e) => Err(e),
    }
}

fn decode_bytes(v: &serde_json::Value) -> (r: Result<Vec<u8>, String>)
    ensures
        r is Ok <==> bytes_of(*v) is Some,
        r is Ok ==> bytes_of(*v) == Some(r->Ok_0@),
{
    let items = match v.as_array() {
        Some(a) => a,
        None => {
            return Err("`app_hash` is not an array".to_owned());
        },
    };
    let mut out: Vec<u8> = Vec::new();
    let mut i: usize = 0;
    while i < items.len()
        invariant
            0 <= i <= items@.len(),
            json_array_of(*v) == Some(items@),
            out@.len() == i,
            forall|j: int| 0 <= j < i ==> (#[trigger] byte_of(items@[j])) is Some,
            forall|j: int| 0 <= j < i ==> out@[j] == byte_of(items@[j])->Some_0,
        decreases items@.len() - i,
    {
        match items[i].as_u64() {
            Some(n) => {
                if n > 255 {
                    assert(byte_of(items@[i as int]) is None);
                    return Err("`app_hash` holds a number over 255".to_owned());
                }
                out.push(n as u8);
            },
            None => {
                assert(byte_of(items@[i as int]) is None);
                return Err("`app_hash` holds a value that is not a byte".to_owned());
            },
        }
        i = i + 1;
    }
    assert(out@ =~= Seq::new(items@.len(), |j: int| byte_of(items@[j])->Some_0));
    Ok(out)
}

fn decode_signed_action(v: &serde_json::Value) -> (r: Result<SignedAction, String>)
    ensures
        r is Ok <==> tx_of(*v) is Some,
        r is Ok ==> tx_of(*v) == Some(tx_view(r->Ok_0)),
{
    let sv = match required(v, "/signature", "missing `signature`") {
        Ok(x) => x,
        Err(e) => {
            return Err(e);
        },
    };
    let signature = match signature_from_json(sv) {
        Ok(s) => s,
        Err(e) => {
            return Err(json_error_text(&e));
        },
    };
    let vault_address = match v.pointer("/vaultAddress") {
        Some(a) => match address_from_json(a) {
            Ok(a) => a,
            Err(e) => {
                return Err(json_error_text(&e));
            },
        },
        None => None,
    };
    let action = match required(v, "/action", "missing `action`") {
        Ok(x) => x.clone(),
        Err(e) => {
            return Err(e);
        },
    };
    let nonce = match required_u64(v, "/nonce", "missing or invalid `nonce`") {
        Ok(n) => n,
        Err(e) => {
            return Err(e);
        },
    };
    Ok(SignedAction { signature, vault_address, action, nonce })
}

fn decode_group(v: &serde_json::Value) -> (r: Result<SignedActions, String>)
    ensures
        r is Ok <==> group_of(*v) is Some,
        r is Ok ==> group_of(*v) == Some(group_view(r->Ok_0)),
{
    let pair = match v.as_array() {
        Some(p) => p,
        None => {
            return Err("a signed-action group is not an array".to_owned());
        },
    };
    if pair.len() != 2 {
        return Err("a signed-action group does not have two elements".to_owned());
    }
    let id = match hash_from_json(&pair[0]) {
        Ok(h) => h,
        Err(e) => {
            return Err(json_error_text(&e));
        },
    };
    let items = match pair[1].as_array() {
        Some(a) => a,
        None => {
            return Err("the actions of a group are not an array".to_owned());
        },
    };
    let mut actions: Vec<SignedAction> = Vec::new();
    let mut i: usize = 0;
    while i < items.len()
        invariant
            0 <= i <= items@.len(),
            json_array_of(*v) == Some(pair@),
            pair@.len() == 2,
            json_h256_of(pair@[0]) == Some(id@),
            json_array_of(pair@[1]) == Some(items@),
            actions@.len() == i,
            forall|j: int| 0 <= j < i ==> (#[trigger] tx_of(items@[j])) is Some,
            forall|j: int| 0 <= j < i ==> tx_view(actions@[j]) == tx_of(items@[j])->Some_0,
        decreases items@.len() - i,
    {
        let a = match decode_signed_action(&items[i]) {
            Ok(a) => a,
            Err(e) => {
                assert(tx_of(items@[i as int]) is None);
                return Err(e);
            },
        };
        actions.push(a);
        i = i + 1;
    }
    assert(actions@.map_values(|t: SignedAction| tx_view(t)) =~= Seq::new(
        items@.len(),
        |j: int| tx_of(items@[j])->Some_0,
    ));
    Ok(SignedActions(id, actions))
}

fn decode_block(v: &serde_json::Value) -> (r: Result<Block, String>)
    ensures
        r is Ok <==> block_of(*v) is Some,
        r is Ok ==> block_of(*v) == Some(block_view(r->Ok_0)),
{
    let time = match required(v, "/block/time", "missing `block.time`") {
        Ok(x) => match x.as_str() {
            Some(t) => t.to_owned(),
            None => {
                return Err("`block.time` is not a string".to_owned());
            },
        },
        Err(e) => {
            return Err(e);
        },
    };
    let raw_height = match required_u64(v, "/block/raw_height", "missing or invalid `block.raw_height`") {
        Ok(n) => n,
        Err(e) => {
            return Err(e);
        },
    };
    let gs = match required(v, "/block/signed_actions", "missing `block.signed_actions`") {
        Ok(x) => x,
        Err(e) => {
            return Err(e);
        },
    };
    let ah = match required(v, "/app_hash", "missing `app_hash`") {
        Ok(x) => x,
        Err(e) => {
            return Err(e);
        },
    };
    let height = match required_u64(v, "/height", "missing or invalid `height`") {
        Ok(n) => n,
        Err(e) => {
            return Err(e);
        },
    };
    let groups = match gs.as_array() {
        Some(g) => g,
        None => {
            return Err("`block.signed_actions` is not an array".to_owned());
        },
    };
    let mut signed_actions: Vec<SignedActions> = Vec::new();
    let mut i: usize = 0;
    while i < groups.len()
        invariant
            0 <= i <= groups@.len(),
            json_array_of(*gs) == Some(groups@),
            json_pointer_of(*v, "/block/signed_actions"@) == Some(*gs),
            str_at(*v, "/block/time"@) is Some,
            u64_at(*v, "/block/raw_height"@) is Some,
            u64_at(*v, "/height"@) is Some,
            signed_actions@.len() == i,
            forall|j: int| 0 <= j < i ==> (#[trigger] group_of(groups@[j])) is Some,
            forall|j: int| 0 <= j < i ==> group_view(signed_actions@[j]) == group_of(groups@[j])->Some_0,
        decreases groups@.len() - i,
    {
        let g = match decode_group(&groups[i]) {
            Ok(g) => g,
            Err(e) => {
                assert(group_of(groups@[i as int]) is None);
                return Err(e);
            },
        };
        signed_actions.push(g);
        i = i + 1;
    }
    assert(signed_actions@.map_values(|g: SignedActions| group_view(g)) =~= Seq::new(
        groups@.len(),
        |j: int| group_of(groups@[j])->Some_0,
    ));
    let app_hash = match decode_bytes(ah) {
        Ok(b) => b,
        Err(e) => {
            return Err(e);
        },
    };
    Ok(Block { block: InnerBlock { time, raw_height, signed_actions }, app_hash, height })
}

/// Decodes one line of the log. A line that does not start with `{` is no record and gives
/// `None`. A record gives its block exactly where it is JSON with every required field
/// present and of its type; otherwise an error that carries the whole line.
pub fn decode_line(line: &str) -> (r: Option<Result<Block, ParseError>>)
    ensures
        r is None <==> !is_record_line(line.spec_bytes()),
        r matches Some(Ok(b)) ==> line_block_of(line@) == Some(block_view(b)),
        r matches Some(Err(e)) ==> e.line@ == line@ && line_block_of(line@) is None,
{
    if !is_record(line) {
        return None;
    }
    let value = match parse_json(line) {
        Ok(v) => v,
        Err(e) => {
            return Some(Err(ParseError { line: line.to_owned(), cause: json_error_text(&e) }));
        },
    };
    match decode_block(&value) {
        Ok(b) => Some(Ok(b)),
        Err(cause) => Some(Err(ParseError { line: line.to_owned(), cause })),
    }
}

} // verus!
