use vstd::prelude::*;

verus! {

#[verifier::external_type_specification]
#[verifier::external_body]
pub struct ExJsonValue(serde_json::Value);

/// Relies on the `Clone` that serde_json derives for `Value`: the copy is the same value.
pub assume_specification[ <serde_json::Value as Clone>::clone ](v: &serde_json::Value) -> (r:
    serde_json::Value)
    ensures
        r == *v,
;

/// A recoverable ECDSA signature: the scalars `r` and `s` as 32 big-endian bytes, and the
/// recovery value `v`.
#[derive(Clone, Copy, Debug)]
pub struct Signature {
    pub r: [u8; 32],
    pub s: [u8; 32],
    pub v: u64,
}

/// One transaction: a signature over an action, the nonce it was signed with, and the vault
/// it acts for, if any.
#[derive(Clone, Debug)]
pub struct SignedAction {
    pub signature: Signature,
    pub vault_address: Option<[u8; 20]>,
    pub action: serde_json::Value,
    pub nonce: u64,
}

/// A group of transactions under one 32-byte identifier.
#[derive(Clone, Debug)]
pub struct SignedActions(pub [u8; 32], pub Vec<SignedAction>);

#[derive(Clone, Debug)]
pub struct InnerBlock {
    pub time: String,
    pub raw_height: u64,
    pub signed_actions: Vec<SignedActions>,
}

/// One block record of the node's log.
#[derive(Clone, Debug)]
pub struct Block {
    pub block: InnerBlock,
    pub app_hash: Vec<u8>,
    pub height: u64,
}

/// The transactions of a sequence of groups, group after group, each in its order.
pub open spec fn flatten_groups(groups: Seq<SignedActions>) -> Seq<SignedAction>
    decreases groups.len(),
{
    if groups.len() == 0 {
        Seq::empty()
    } else {
        flatten_groups(groups.drop_last()) + groups.last().1@
    }
}

impl SignedAction {
    /// A copy of this transaction.
    pub fn duplicate(&self) -> (r: SignedAction)
        ensures
            r == *self,
    {
        SignedAction {
            signature: self.signature,
            vault_address: self.vault_address,
            action: self.action.clone(),
            nonce: self.nonce,
        }
    }
}

impl Block {
    /// Every transaction of the block, in the order of its groups and within each group.
    pub fn txs(&self) -> (r: Vec<SignedAction>)
        ensures
            r@ == flatten_groups(self.block.signed_actions@),
    {
        let groups = &self.block.signed_actions;
        let mut out: Vec<SignedAction> = Vec::new();
        let mut i: usize = 0;
        while i < groups.len()
            invariant
                0 <= i <= groups@.len(),
                out@ == flatten_groups(groups@.subrange(0, i as int)),
            decreases groups@.len() - i,
        {
            let group = &groups[i].1;
            let ghost start = out@;
            let mut j: usize = 0;
            while j < group.len()
                invariant
                    0 <= j <= group@.len(),
                    out@ == start + group@.subrange(0, j as int),
                decreases group@.len() - j,
            {
                out.push(group[j].duplicate());
                assert(group@.subrange(0, j + 1) =~= group@.subrange(0, j as int).push(group@[j as int]));
                assert(out@ =~= start + group@.subrange(0, j + 1));
                j = j + 1;
            }
            assert(group@.subrange(0, group@.len() as int) =~= group@);
            assert(groups@.subrange(0, i + 1).drop_last() =~= groups@.subrange(0, i as int));
            i = i + 1;
        }
        assert(groups@.subrange(0, groups@.len() as int) =~= groups@);
        out
    }
}

} // verus!
