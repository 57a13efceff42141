//! Deterministic derivation of an entity's address from its owner.
use vstd::prelude::*;

verus! {

/// The program-derived address for one seed under a program id, if any.
pub uninterp spec fn program_address(seed: Seq<u8>, program: Seq<u8>) -> Option<Seq<u8>>;

/// Relies on anchor_lang's `Pubkey::try_find_program_address`: the address
/// found for the single seed `seed` under `program` depends on those bytes
/// alone; `None` when no bump seed yields an address off the curve.
#[verifier::external_body]
pub(crate) fn find_address(seed: &[u8; 32], program: &[u8; 32]) -> (r: Option<[u8; 32]>)
    ensures
        match r {
            Some(a) => program_address(seed@, program@) == Some(a@),
            None => program_address(seed@, program@) is None,
        },
{
    let program_id = anchor_lang::prelude::Pubkey::new_from_array(*program);
    anchor_lang::prelude::Pubkey::try_find_program_address(&[&seed[..]], &program_id)
        .map(|(a, _bump)| a.to_bytes())
}

/// Byte-wise equality of two keys.
pub fn same_key(a: &[u8; 32], b: &[u8; 32]) -> (r: bool)
    ensures
        r == (a@ == b@),
{
    let mut i: usize = 0;
    while i < 32
        invariant
            0 <= i <= 32,
            a@.len() == 32,
            b@.len() == 32,
            forall|j: int| 0 <= j < i ==> a@[j] == b@[j],
        decreases 32 - i,
    {
        if a[i] != b[i] {
            assert(a@[i as int] != b@[i as int]);
            return false;
        }
        i += 1;
    }
    assert(a@ =~= b@);
    true
}

} // verus!
