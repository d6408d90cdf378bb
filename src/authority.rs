use vstd::prelude::*;

use crate::address::Address;
use crate::error::NoteError;

verus! {

/// The program address derived from a single seed under a program, with the
/// bump that made it fall off the curve, if any bump does.
pub uninterp spec fn program_address_of(seed: Seq<u8>, program: Seq<u8>) -> Option<(Seq<u8>, u8)>;

/// Relies on solana_program::pubkey::Pubkey::try_find_program_address: a
/// deterministic search over bumps, from 255 down, for an off-curve address.
#[verifier::external_body]
fn find_program_address(seed: &Address, program: &Address) -> (r: Option<(Address, u8)>)
    ensures
        match r {
            Some((a, bump)) => program_address_of(seed@, program@) == Some((a@, bump)),
            None => program_address_of(seed@, program@) is None,
        },
{
    let program_id = anchor_lang::prelude::Pubkey::new_from_array(program.bytes);
    anchor_lang::prelude::Pubkey::try_find_program_address(&[seed.bytes.as_slice()], &program_id)
        .map(|(key, bump)| (Address { bytes: key.to_bytes() }, bump))
}

/// The signing capability bound to one tree: the program address derived
/// from the tree's address alone, and its bump.
#[derive(Clone, Copy, Debug, PartialEq, Eq)]
pub struct TreeAuthority {
    pub address: Address,
    pub bump: u8,
}

/// Derives the authority of `tree` under the program `program_id`.
pub fn derive_authority(tree: &Address, program_id: &Address) -> (r: Result<TreeAuthority, NoteError>)
    ensures
        match program_address_of(tree@, program_id@) {
            Some((a, bump)) => r matches Ok(t) && t.address@ == a && t.bump == bump,
            None => r == Err::<TreeAuthority, NoteError>(NoteError::AuthorityDerivationError),
        },
{
    match find_program_address(tree, program_id) {
        Some((address, bump)) => Ok(TreeAuthority { address, bump }),
        None => Err(NoteError::AuthorityDerivationError),
    }
}

/// The seeds with which the program signs for a tree: the tree's address,
/// then the bump.
pub open spec fn signer_seeds_of(tree: Seq<u8>, bump: u8) -> Seq<Seq<u8>> {
    seq![tree, seq![bump]]
}

/// Builds the signer seeds of a tree's authority.
pub fn signer_seeds(tree: &Address, authority: &TreeAuthority) -> (r: Vec<Vec<u8>>)
    ensures
        r@.len() == 2,
        r@[0]@ == signer_seeds_of(tree@, authority.bump)[0],
        r@[1]@ == signer_seeds_of(tree@, authority.bump)[1],
{
    let mut first: Vec<u8> = Vec::new();
    let mut i: usize = 0;
    while i < 32
        invariant
            i <= 32,
            first@ == tree@.subrange(0, i as int),
        decreases 32 - i,
    {
        first.push(tree.bytes[i]);
        i = i + 1;
        assert(first@ =~= tree@.subrange(0, i as int));
    }
    assert(first@ =~= tree@);
    let second: Vec<u8> = vec![authority.bump];
    assert(second@ =~= seq![authority.bump]);
    let mut r: Vec<Vec<u8>> = Vec::new();
    r.push(first);
    r.push(second);
    r
}

/// Checks that `given` is the authority derived for `tree`, and returns it.
pub fn bind_authority(tree: &Address, given: &Address, program_id: &Address) -> (r: Result<TreeAuthority, NoteError>)
    ensures
        match program_address_of(tree@, program_id@) {
            Some((a, bump)) => if a == given@ {
                r matches Ok(t) && t.address@ == a && t.bump == bump
            } else {
                r == Err::<TreeAuthority, NoteError>(NoteError::AuthorityMismatch)
            },
            None => r == Err::<TreeAuthority, NoteError>(NoteError::AuthorityDerivationError),
        },
{
    let t = derive_authority(tree, program_id)?;
    if t.address.same_as(given) {
        Ok(t)
    } else {
        Err(NoteError::AuthorityMismatch)
    }
}

} // verus!
