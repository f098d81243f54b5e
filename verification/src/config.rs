//! The administrative singleton: who may publish roots, and the current
//! trusted Merkle root.
//!
//! The deployment creates exactly one `GlobalState` at bootstrap and
//! threads it into every operation that verifies a proof. The root is the
//! sole channel by which off-chain-computed outcomes become authorizable;
//! only the stored administrator can replace it.

use vstd::prelude::*;

use crate::errors::ErrorCode;
use crate::events::MerkleRootUpdated;
use crate::hash::zero_digest;

verus! {

/// The singleton configuration: administrator identity, current trusted
/// Merkle root, and the derivation seed the substrate assigned to it.
#[derive(Clone, Copy, Debug, PartialEq, Eq)]
pub struct GlobalState {
    pub admin: u64,
    pub merkle_root: [u8; 32],
    pub bump: u8,
}

/// Bootstraps the singleton: the given administrator, an all-zero root,
/// and the substrate-assigned derivation seed.
pub fn initialize(admin: u64, bump: u8) -> (gs: GlobalState)
    ensures
        gs.admin == admin,
        gs.merkle_root@ == zero_digest(),
        gs.bump == bump,
{
    let root: [u8; 32] = [0u8; 32];
    proof {
        assert(root@ =~= zero_digest());
    }
    GlobalState { admin, merkle_root: root, bump }
}

/// Replaces the trusted root, administrator only. Succeeds exactly when
/// the caller is the stored administrator; any other caller is refused
/// with `NotAdmin` and the state is left untouched.
pub fn set_merkle_root(gs: &mut GlobalState, caller: u64, merkle_root: [u8; 32]) -> (r: Result<
    MerkleRootUpdated,
    ErrorCode,
>)
    ensures
        r is Ok <==> caller == old(gs).admin,
        r matches Ok(ev) ==> {
            &&& final(gs).admin == old(gs).admin
            &&& final(gs).merkle_root == merkle_root
            &&& final(gs).bump == old(gs).bump
            &&& ev == (MerkleRootUpdated { merkle_root, admin: caller })
        },
        r is Err ==> r == Err::<MerkleRootUpdated, ErrorCode>(ErrorCode::NotAdmin) && *final(gs)
            == *old(gs),
{
    if caller != gs.admin {
        return Err(ErrorCode::NotAdmin);
    }
    gs.merkle_root = merkle_root;
    Ok(MerkleRootUpdated { merkle_root, admin: caller })
}

} // verus!
