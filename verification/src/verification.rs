//! The identity gate: is the subject verified under the group?

use vstd::prelude::*;

use crate::account::AccountInfo;
use crate::error::{GovernanceError, ProgramError};
use crate::identity::Identity;
use crate::pubkey::{derive_address, seeds_of, Pubkey};

verus! {

/// Tag of the address of an identity record: the bytes of `identity`.
pub const IDENTITY_SEED: [u8; 8] = [105, 100, 101, 110, 116, 105, 116, 121];

/// The seeds of the identity record of `subject` under `group`.
pub open spec fn identity_address_seeds(group: Pubkey, subject: Pubkey) -> Seq<Seq<u8>> {
    seq![IDENTITY_SEED@, group@, subject@]
}

/// The address of the identity record of `subject` under `group`, as the
/// verification program `program` derives it.
pub open spec fn identity_address(program: Pubkey, group: Pubkey, subject: Pubkey) -> Option<
    (Pubkey, u8),
> {
    derive_address(identity_address_seeds(group, subject), program)
}

/// The subject is known and in good standing: the record lives at the address
/// derived for the subject under the group, and it says that the identity,
/// AML and KYC checks were all passed.
pub open spec fn identity_is_verified(
    record: &AccountInfo,
    subject: Pubkey,
    group: Pubkey,
    program: Pubkey,
) -> bool {
    &&& identity_address(program, group, subject) is Some
    &&& (identity_address(program, group, subject)->0).0 == record.key
    &&& Identity::parse(record.data@) is Some
    &&& (Identity::parse(record.data@)->0).0.verified()
}

/// Returns identity record seeds
pub fn get_identity_address_seeds<'a>(group: &'a Pubkey, subject: &'a Pubkey) -> (r: [&'a [u8]; 3])
    ensures
        seeds_of(r) == identity_address_seeds(*group, *subject),
{
    let tag: &'static [u8; 8] = &IDENTITY_SEED;
    let r = [tag.as_slice(), group.as_ref(), subject.as_ref()];
    assert(seeds_of(r) =~= identity_address_seeds(*group, *subject));
    r
}

/// Returns the address of the identity record, where one can be derived.
pub fn try_get_identity_address(program: &Pubkey, group: &Pubkey, subject: &Pubkey) -> (r: Option<
    Pubkey,
>)
    ensures
        r == match identity_address(*program, *group, *subject) {
            Some((address, _)) => Some(address),
            None => None,
        },
{
    let seeds = get_identity_address_seeds(group, subject);
    match Pubkey::try_find_address(&seeds, program) {
        Some((address, _)) => Some(address),
        None => None,
    }
}

/// Asserts that the subject's identity was verified under the group: fails
/// with `UserIdentityNotKnown` unless the record is the one derived for the
/// subject and all three of its statuses are approved. The record is only
/// read. What matters of the result is that it is `Ok`: the value in it is
/// always `false`.
pub fn assert_identity_verification(
    record: &AccountInfo,
    subject: &AccountInfo,
    group: &AccountInfo,
    program: &AccountInfo,
) -> (r: Result<bool, ProgramError>)
    ensures
        identity_is_verified(record, subject.key, group.key, program.key) ==> r == Ok::<
            bool,
            ProgramError,
        >(false),
        !identity_is_verified(record, subject.key, group.key, program.key) ==> r == Err::<
            bool,
            ProgramError,
        >(ProgramError::Governance(GovernanceError::UserIdentityNotKnown)),
{
    let address = match try_get_identity_address(&program.key, &group.key, &subject.key) {
        Some(address) => address,
        None => { return Err(ProgramError::Governance(GovernanceError::UserIdentityNotKnown)); },
    };
    let idv = match Identity::deserialize(record.data.as_slice()) {
        Some(idv) => idv,
        None => { return Err(ProgramError::Governance(GovernanceError::UserIdentityNotKnown)); },
    };
    if record.key != address || !idv.is_verified() {
        return Err(ProgramError::Governance(GovernanceError::UserIdentityNotKnown));
    }
    Ok(false)
}

} // verus!
