//! Per-user storage address derivation: a deterministic map from the user's
//! address and the program's address to a derived storage address that no
//! external key can sign for, together with the bump discriminant the program
//! needs to authorize allocation at that address.

use vstd::prelude::*;

use crate::state::Address;
use solana_program::pubkey::Pubkey;

verus! {

/// The derived (address bytes, bump discriminant) pair for a user address and
/// a program address. The derivation is a fixed hash construction; its value
/// is a function of the two arguments alone.
pub uninterp spec fn spec_derived_user_address(user: Seq<u8>, program: Seq<u8>) -> (Seq<u8>, u8);

/// Relies on `solana_program::pubkey::Pubkey::find_program_address`, called
/// with the user's address bytes as the single seed: the result is determined
/// by the seed and the program address alone, and the returned address is
/// always 32 bytes. The call aborts in the statistically improbable event
/// that no bump discriminant yields a valid derived address; the host's own
/// derivation behaves identically.
#[verifier::external_body]
fn find_user_storage_address(user: &Address, program_id: &Address) -> (r: (Address, u8))
    requires
        user.wf(),
        program_id.wf(),
    ensures
        r.0@ == spec_derived_user_address(user@, program_id@).0,
        r.1 == spec_derived_user_address(user@, program_id@).1,
        r.0.wf(),
{
    let program = Pubkey::try_from(program_id.bytes.as_slice()).unwrap();
    let (pda, bump) = Pubkey::find_program_address(&[user.bytes.as_slice()], &program);
    (Address { bytes: pda.to_bytes().to_vec() }, bump)
}

/// Derives the storage address for `user`'s account under `program_id`,
/// together with the bump discriminant that authorizes allocating storage at
/// that address on the user's behalf.
pub fn derive_user_storage_address(user: &Address, program_id: &Address) -> (r: (Address, u8))
    requires
        user.wf(),
        program_id.wf(),
    ensures
        r.0@ == spec_derived_user_address(user@, program_id@).0,
        r.1 == spec_derived_user_address(user@, program_id@).1,
        r.0.wf(),
{
    find_user_storage_address(user, program_id)
}

} // verus!
