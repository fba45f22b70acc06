//! What the ledger asks of the custody service.
//!
//! The ledger moves no funds itself. An escrow operation hands back a
//! `TransferRequest`; whoever runs the ledger has the custody service
//! perform it and reports how that went.

use crate::address::{
    custody_authority, derive_custody_authority, seed_of, Address, CUSTODY_TAG,
};
use vstd::prelude::*;

verus! {

/// The proof of authority that accompanies a transfer.
#[derive(Clone, Copy, Debug, PartialEq, Eq)]
pub enum Authorization {
    /// The holder of the funds signs for itself.
    Signature { signer: Address },
    /// The protocol-owned authority acts, shown by the bump that derives
    /// its address from the custody tag.
    Protocol { bump: u8 },
}

/// One movement of funds that the custody service is asked to perform.
#[derive(Clone, Copy, Debug, PartialEq, Eq)]
pub struct TransferRequest {
    pub from: Address,
    pub to: Address,
    pub amount: u64,
    pub authorization: Authorization,
}

impl TransferRequest {
    /// Whether the authorization is the one that may move funds out of
    /// `self.from`, given the protocol authority that `derived` holds: a
    /// signature must be the holder's own, and a protocol proof must carry
    /// the bump of the authority that holds the funds.
    pub open spec fn authorized_by(self, derived: Option<(Address, u8)>) -> bool {
        match self.authorization {
            Authorization::Signature { signer } => signer == self.from,
            Authorization::Protocol { bump } => derived == Some((self.from, bump)),
        }
    }

    /// Checks the authorization against an already derived protocol
    /// authority.
    pub fn is_authorized_by(&self, derived: Option<(Address, u8)>) -> (r: bool)
        ensures
            r == self.authorized_by(derived),
    {
        match self.authorization {
            Authorization::Signature { signer } => signer == self.from,
            Authorization::Protocol { bump } => match derived {
                Some((address, found)) => address == self.from && found == bump,
                None => false,
            },
        }
    }

    /// Checks the authorization against the protocol authority of
    /// `program_id`, derived anew.
    pub fn is_authorized(&self, program_id: &Address) -> (r: bool)
        ensures
            r == self.authorized_by(custody_authority(*program_id)),
    {
        self.is_authorized_by(derive_custody_authority(program_id))
    }
}

/// The seeds that stand in for a signature of the protocol authority: the
/// custody tag, then the bump alone.
pub fn custody_signer_seeds(bump: u8) -> (r: Vec<Vec<u8>>)
    ensures
        r.deep_view() == seq![CUSTODY_TAG@, seq![bump]],
{
    let tag = seed_of(&CUSTODY_TAG);
    let mut last: Vec<u8> = Vec::new();
    last.push(bump);
    let mut seeds: Vec<Vec<u8>> = Vec::new();
    seeds.push(tag);
    seeds.push(last);
    proof {
        assert(last@ =~= seq![bump]);
        assert(seeds.deep_view() =~~= seq![CUSTODY_TAG@, seq![bump]]);
    }
    seeds
}

} // verus!
