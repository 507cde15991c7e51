//! Plain-value identities: 32-byte account keys and proposal ids, held as
//! four 64-bit words so that contracts can speak of them directly.

use vstd::prelude::*;
use crate::codec::be_value;
use crate::codec::push_u64_be;
use crate::codec::read_u64_be;

verus! {

/// A 32-byte account identity, as four big-endian 64-bit words.
#[derive(Clone, Copy, PartialEq, Eq, Structural, Debug)]
pub struct AccountId {
    pub part1: u64,
    pub part2: u64,
    pub part3: u64,
    pub part4: u64,
}

impl AccountId {
    /// The all-zero identity, which stands for "no account".
    pub open spec fn spec_zeroed() -> AccountId {
        AccountId { part1: 0, part2: 0, part3: 0, part4: 0 }
    }

    pub fn zeroed() -> (r: AccountId)
        ensures
            r == AccountId::spec_zeroed(),
    {
        AccountId { part1: 0, part2: 0, part3: 0, part4: 0 }
    }
}

/// A 32-byte proposal identity, as four big-endian 64-bit words.
#[derive(Clone, Copy, PartialEq, Eq, Structural, Debug)]
pub struct ProposalId {
    pub part1: u64,
    pub part2: u64,
    pub part3: u64,
    pub part4: u64,
}

impl ProposalId {
    /// The proposal id encoded by 32 big-endian bytes.
    pub open spec fn spec_from_bytes(bytes: Seq<u8>) -> ProposalId {
        ProposalId {
            part1: be_value(bytes.subrange(0, 8)) as u64,
            part2: be_value(bytes.subrange(8, 16)) as u64,
            part3: be_value(bytes.subrange(16, 24)) as u64,
            part4: be_value(bytes.subrange(24, 32)) as u64,
        }
    }

    /// Reads a proposal id from exactly 32 big-endian bytes.
    pub fn from_bytes(bytes: &Vec<u8>) -> (r: ProposalId)
        requires
            bytes@.len() == 32,
        ensures
            r == ProposalId::spec_from_bytes(bytes@),
    {
        let part1 = read_u64_be(bytes, 0);
        let part2 = read_u64_be(bytes, 8);
        let part3 = read_u64_be(bytes, 16);
        let part4 = read_u64_be(bytes, 24);
        ProposalId { part1, part2, part3, part4 }
    }

    /// Writes the id back as 32 big-endian bytes; reading those bytes
    /// returns this id.
    pub fn to_bytes(&self) -> (r: Vec<u8>)
        ensures
            r@.len() == 32,
            ProposalId::spec_from_bytes(r@) == *self,
    {
        let mut r: Vec<u8> = Vec::new();
        push_u64_be(&mut r, self.part1);
        let ghost g1 = r@;
        push_u64_be(&mut r, self.part2);
        let ghost g2 = r@;
        push_u64_be(&mut r, self.part3);
        let ghost g3 = r@;
        push_u64_be(&mut r, self.part4);
        proof {
            assert(r@.subrange(0, 24) == g3);
            assert(g3.subrange(0, 16) == g2);
            assert(g2.subrange(0, 8) == g1);
            assert(r@.subrange(0, 8) =~= g3.subrange(0, 16).subrange(0, 8));
            assert(g3.subrange(0, 16).subrange(0, 8) =~= g2.subrange(0, 8));
            assert(be_value(g1.subrange(0, 8)) == self.part1);
            assert(g1.subrange(0, 8) =~= g1);
            assert(r@.subrange(8, 16) =~= g3.subrange(0, 16).subrange(8, 16));
            assert(g3.subrange(0, 16).subrange(8, 16) =~= g2.subrange(8, 16));
            assert(be_value(g2.subrange(8, 16)) == self.part2);
            assert(r@.subrange(16, 24) =~= g3.subrange(16, 24));
            assert(be_value(g3.subrange(16, 24)) == self.part3);
            assert(be_value(r@.subrange(24, 32)) == self.part4);
        }
        r
    }

    /// Parses a proposal id, rejecting any byte string that is not 32 bytes.
    pub fn new(bytes: &Vec<u8>) -> (r: Option<ProposalId>)
        ensures
            match r {
                Some(id) => bytes@.len() == 32 && id == ProposalId::spec_from_bytes(bytes@),
                None => bytes@.len() != 32,
            },
    {
        if bytes.len() != 32 {
            return None;
        }
        Some(ProposalId::from_bytes(bytes))
    }
}

} // verus!
