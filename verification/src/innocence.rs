//! The innocence statement: a depositor address is not on a sanctions list.
//!
//! Membership is looked up in a registry of denied addresses that the
//! caller injects, so the list can be updated without rebuilding the
//! statement.  The claimed `sanctions_root` is carried through to the
//! public record but is not itself checked against the registry: a Merkle
//! non-membership proof binding the two is a known open point of the
//! protocol, and this statement keeps the shipped behaviour.

use vstd::prelude::*;

use crate::byteutil::bytes_eq;

verus! {

/// A registry of denied 20-byte addresses, injected into the statement.
#[derive(Clone, Debug)]
pub struct SanctionsRegistry {
    pub entries: Vec<[u8; 20]>,
}

impl SanctionsRegistry {
    /// Whether the registry lists `address`.
    pub open spec fn lists(self, address: Seq<u8>) -> bool {
        exists|i: int| 0 <= i < self.entries@.len() && self.entries@[i]@ == address
    }

    /// An empty registry.
    pub fn new() -> (registry: SanctionsRegistry)
        ensures
            registry.entries@.len() == 0,
    {
        SanctionsRegistry { entries: Vec::new() }
    }

    /// Adds one denied address.
    pub fn add(&mut self, address: [u8; 20])
        ensures
            final(self).entries@ == old(self).entries@.push(address),
    {
        self.entries.push(address);
    }

    /// Looks `address` up in the registry.
    pub fn contains(&self, address: &[u8; 20]) -> (listed: bool)
        ensures
            listed == self.lists(address@),
    {
        let mut i: usize = 0;
        while i < self.entries.len()
            invariant
                i <= self.entries@.len(),
                forall|k: int| 0 <= k < i ==> self.entries@[k]@ != address@,
            decreases self.entries@.len() - i,
        {
            if bytes_eq(&self.entries[i], address) {
                return true;
            }
            i = i + 1;
        }
        false
    }
}

/// Public inputs to the innocence statement (it needs no private witness).
#[derive(Clone, Copy, Debug)]
pub struct InnocenceClaim {
    pub depositor: [u8; 20],
    pub sanctions_root: [u8; 32],
    pub timestamp: u64,
}

/// The public record an innocence statement commits to.
#[derive(Clone, Copy, Debug, PartialEq, Eq)]
pub struct InnocenceProofPublicValues {
    pub depositor: [u8; 20],
    pub sanctions_root: [u8; 32],
    pub timestamp: u64,
    pub is_innocent: bool,
}

/// The first of the three denied addresses shipped with the protocol.
pub open spec fn shipped_denied_address_0() -> Seq<u8> {
    seq![
        0x85u8, 0x89u8, 0x42u8, 0x73u8, 0x73u8, 0xD6u8, 0xD8u8, 0x4Eu8, 0x98u8, 0x73u8, 0x0Du8,
        0x77u8, 0x95u8, 0xD8u8, 0xf6u8, 0xf8u8, 0x73u8, 0x1Fu8, 0xDAu8, 0x16u8,
    ]
}

/// The second of the three denied addresses shipped with the protocol.
pub open spec fn shipped_denied_address_1() -> Seq<u8> {
    seq![
        0x72u8, 0x21u8, 0x22u8, 0xdFu8, 0x12u8, 0xD4u8, 0xe1u8, 0x4eu8, 0x13u8, 0xAcu8, 0x3bu8,
        0x68u8, 0x95u8, 0xa8u8, 0x6eu8, 0x84u8, 0x14u8, 0x5bu8, 0x69u8, 0x67u8,
    ]
}

/// The third of the three denied addresses shipped with the protocol.
pub open spec fn shipped_denied_address_2() -> Seq<u8> {
    seq![
        0xDDu8, 0x4cu8, 0x48u8, 0xC0u8, 0xB2u8, 0x40u8, 0x39u8, 0x96u8, 0x9fu8, 0xC1u8, 0x6Du8,
        0x1cu8, 0xdFu8, 0x62u8, 0x6eu8, 0xaBu8, 0x82u8, 0x1du8, 0x33u8, 0x84u8,
    ]
}

/// The fixed deny list the protocol ships: three mixer addresses from a
/// public sanctions designation.
pub fn shipped_deny_list() -> (registry: SanctionsRegistry)
    ensures
        registry.entries@.len() == 3,
        registry.entries@[0]@ == shipped_denied_address_0(),
        registry.entries@[1]@ == shipped_denied_address_1(),
        registry.entries@[2]@ == shipped_denied_address_2(),
{
    let mut registry = SanctionsRegistry::new();
    let first: [u8; 20] = [
        0x85, 0x89, 0x42, 0x73, 0x73, 0xD6, 0xD8, 0x4E, 0x98, 0x73, 0x0D, 0x77, 0x95, 0xD8, 0xf6,
        0xf8, 0x73, 0x1F, 0xDA, 0x16,
    ];
    let second: [u8; 20] = [
        0x72, 0x21, 0x22, 0xdF, 0x12, 0xD4, 0xe1, 0x4e, 0x13, 0xAc, 0x3b, 0x68, 0x95, 0xa8, 0x6e,
        0x84, 0x14, 0x5b, 0x69, 0x67,
    ];
    let third: [u8; 20] = [
        0xDD, 0x4c, 0x48, 0xC0, 0xB2, 0x40, 0x39, 0x96, 0x9f, 0xC1, 0x6D, 0x1c, 0xdF, 0x62, 0x6e,
        0xaB, 0x82, 0x1d, 0x33, 0x84,
    ];
    proof {
        assert(first@ =~= shipped_denied_address_0());
        assert(second@ =~= shipped_denied_address_1());
        assert(third@ =~= shipped_denied_address_2());
    }
    registry.add(first);
    registry.add(second);
    registry.add(third);
    registry
}

/// Evaluates the innocence statement: the record echoes the claim and
/// reports the depositor innocent exactly when the registry does not list
/// the address.  The statement never rejects; a listed address simply
/// yields `is_innocent == false`.
pub fn evaluate_innocence(claim: &InnocenceClaim, registry: &SanctionsRegistry) -> (out:
    InnocenceProofPublicValues)
    ensures
        out.depositor@ == claim.depositor@,
        out.sanctions_root@ == claim.sanctions_root@,
        out.timestamp == claim.timestamp,
        out.is_innocent == !registry.lists(claim.depositor@),
{
    let is_sanctioned = registry.contains(&claim.depositor);
    InnocenceProofPublicValues {
        depositor: claim.depositor,
        sanctions_root: claim.sanctions_root,
        timestamp: claim.timestamp,
        is_innocent: !is_sanctioned,
    }
}

} // verus!
