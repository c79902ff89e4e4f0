//! A model of the secure credential store: a map from a closed set of keys
//! to text, and the writes that the token lifecycle asks of it. The store
//! itself lives outside the process; callers carry out the writes.

pub mod keys;

use vstd::prelude::*;

verus! {

/// The entries that the credential store holds.
#[derive(Debug, Clone, Copy, PartialEq, Eq, Structural)]
pub enum CredentialKey {
    AccessToken,
    RefreshToken,
    TokenExpiry,
    CustomClientId,
    CustomClientSecret,
    PkceVerifier,
}

pub open spec fn key_name(k: CredentialKey) -> Seq<char> {
    match k {
        CredentialKey::AccessToken => keys::ACCESS_TOKEN@,
        CredentialKey::RefreshToken => keys::REFRESH_TOKEN@,
        CredentialKey::TokenExpiry => keys::TOKEN_EXPIRY@,
        CredentialKey::CustomClientId => keys::CUSTOM_CLIENT_ID@,
        CredentialKey::CustomClientSecret => keys::CUSTOM_CLIENT_SECRET@,
        CredentialKey::PkceVerifier => keys::PKCE_VERIFIER@,
    }
}

impl CredentialKey {
    /// The name of this entry in the secret store.
    pub fn name(&self) -> (r: &'static str)
        ensures
            r@ == key_name(*self),
    {
        match self {
            CredentialKey::AccessToken => keys::ACCESS_TOKEN,
            CredentialKey::RefreshToken => keys::REFRESH_TOKEN,
            CredentialKey::TokenExpiry => keys::TOKEN_EXPIRY,
            CredentialKey::CustomClientId => keys::CUSTOM_CLIENT_ID,
            CredentialKey::CustomClientSecret => keys::CUSTOM_CLIENT_SECRET,
            CredentialKey::PkceVerifier => keys::PKCE_VERIFIER,
        }
    }
}

/// One write to the credential store. A failed `Put` fails the operation
/// that asked for it; a `Remove` is best-effort, and removing an absent
/// entry is no error.
#[derive(Debug)]
pub enum StoreOp {
    Put(CredentialKey, String),
    Remove(CredentialKey),
}

/// The store's contents after one write.
pub open spec fn apply_op(m: Map<CredentialKey, Seq<char>>, op: StoreOp) -> Map<CredentialKey, Seq<char>> {
    match op {
        StoreOp::Put(k, v) => m.insert(k, v@),
        StoreOp::Remove(k) => m.remove(k),
    }
}

/// The store's contents after a run of writes, in order.
pub open spec fn apply_ops(m: Map<CredentialKey, Seq<char>>, ops: Seq<StoreOp>) -> Map<CredentialKey, Seq<char>>
    decreases ops.len(),
{
    if ops.len() == 0 {
        m
    } else {
        apply_ops(apply_op(m, ops[0]), ops.drop_first())
    }
}

/// Writing one more op after a run is applying it to the run's outcome.
pub proof fn lemma_apply_ops_push(m: Map<CredentialKey, Seq<char>>, ops: Seq<StoreOp>, op: StoreOp)
    ensures
        apply_ops(m, ops.push(op)) == apply_op(apply_ops(m, ops), op),
    decreases ops.len(),
{
    if ops.len() == 0 {
        assert(ops.push(op).drop_first() =~= Seq::<StoreOp>::empty());
        assert(ops.push(op)[0] == op);
        assert(apply_ops(apply_op(m, op), Seq::<StoreOp>::empty()) == apply_op(m, op));
    } else {
        assert(ops.push(op).drop_first() =~= ops.drop_first().push(op));
        assert(ops.push(op)[0] == ops[0]);
        lemma_apply_ops_push(apply_op(m, ops[0]), ops.drop_first(), op);
    }
}

/// What the store holds under `k`.
pub open spec fn stored(m: Map<CredentialKey, Seq<char>>, k: CredentialKey) -> Option<Seq<char>> {
    if m.contains_key(k) {
        Some(m[k])
    } else {
        None
    }
}

} // verus!
