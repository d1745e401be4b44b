//! The whitelist program's rules: a record of three statuses per subject,
//! written by its authority only.

use vstd::prelude::*;

use crate::account::{
    address_check, assert_address, assert_owned_by, assert_signer, assert_system_account,
    assert_system_program, assert_uninitialized, assert_writable, owner_check, signer_check,
    system_account_check, system_program_check, uninitialized_check, writable_check,
    AccountInfo,
};
use crate::error::ProgramError;
use crate::identity::{lemma_identity_round_trip, Identity, IDENTITY_LEN};
use crate::pubkey::{derive_address, seeds_of, Pubkey};

verus! {

pub const DISCRIMINATOR_LENGTH: usize = 8;

pub const STATUS_LENGTH: usize = 1;

pub const BUMP_LENGTH: usize = 1;

/// Why the whitelist program refuses an instruction.
#[derive(Clone, Copy, Debug, PartialEq, Eq, Structural)]
pub enum ErrorCode {
    /// Unexpected Status
    UnknownStatus,
    /// Not Authorized
    NotAuthorized,
}

/// The largest status: 0 is initial, 1 approved, 2 denied.
pub const MAX_STATUS: u8 = 2;

/// The record of a subject.
#[derive(Clone, Copy, Debug, PartialEq, Eq)]
pub struct Metadata {
    /// bump seed used in deriving the pda for the status account
    pub bump: u8,
    /// Accreditation status of the user (0 = initial, 1 = approved, 2 = denied).
    pub accreditation_status: u8,
    /// AML status of the user (0 = initial, 1 = approved, 2 = denied).
    pub aml_status: u8,
    /// KYC status of the user (0 = initial, 1 = approved, 2 = denied).
    pub kyc_status: u8,
    /// Account who has update authority over the account
    pub authority: Pubkey,
}

/// Bytes of the account that holds a record.
pub const METADATA_LEN: usize = 8 + 3 + 1 + 32;

/// An update left the record as specified, or left it alone.
pub open spec fn updated(
    r: Result<(), ErrorCode>,
    before: Metadata,
    after: Metadata,
    expected: Result<Metadata, ErrorCode>,
) -> bool {
    match expected {
        Ok(record) => r == Ok::<(), ErrorCode>(()) && after == record,
        Err(e) => r == Err::<(), ErrorCode>(e) && after == before,
    }
}

/// What an update of all three statuses comes to: only the authority may
/// write, and every status must be known.
pub open spec fn update_record_result(
    record: Metadata,
    authority: Pubkey,
    accreditation_status: u8,
    aml_status: u8,
    kyc_status: u8,
) -> Result<Metadata, ErrorCode> {
    if record.authority != authority {
        Err(ErrorCode::NotAuthorized)
    } else if accreditation_status > MAX_STATUS || aml_status > MAX_STATUS || kyc_status
        > MAX_STATUS {
        Err(ErrorCode::UnknownStatus)
    } else {
        Ok(Metadata { accreditation_status, aml_status, kyc_status, ..record })
    }
}

/// Create a record of kyc/aml metadata for the user.
pub fn create_record(record: &mut Metadata, authority: &Pubkey, bump: u8) -> (r: Result<
    (),
    ErrorCode,
>)
    ensures
        r == Ok::<(), ErrorCode>(()),
        *final(record) == (Metadata {
            bump,
            accreditation_status: 0,
            aml_status: 0,
            kyc_status: 0,
            authority: *authority,
        }),
{
    record.aml_status = 0;
    record.accreditation_status = 0;
    record.kyc_status = 0;
    record.bump = bump;
    record.authority = *authority;
    Ok(())
}

/// Update a record of kyc/aml metadata for the user.
pub fn update_record(
    record: &mut Metadata,
    authority: &Pubkey,
    accreditation_status: u8,
    aml_status: u8,
    kyc_status: u8,
) -> (r: Result<(), ErrorCode>)
    ensures
        updated(
            r,
            *old(record),
            *final(record),
            update_record_result(
                *old(record),
                *authority,
                accreditation_status,
                aml_status,
                kyc_status,
            ),
        ),
{
    if record.authority != *authority {
        return Err(ErrorCode::NotAuthorized);
    }
    if accreditation_status > MAX_STATUS {
        return Err(ErrorCode::UnknownStatus);
    }
    if aml_status > MAX_STATUS {
        return Err(ErrorCode::UnknownStatus);
    }
    if kyc_status > MAX_STATUS {
        return Err(ErrorCode::UnknownStatus);
    }
    record.accreditation_status = accreditation_status;
    record.aml_status = aml_status;
    record.kyc_status = kyc_status;
    Ok(())
}

/// Update accreditation status of account
pub fn update_accreditation_status(record: &mut Metadata, authority: &Pubkey, status: u8) -> (r:
    Result<(), ErrorCode>)
    ensures
        updated(
            r,
            *old(record),
            *final(record),
            single_status_result(*old(record), *authority, status, Metadata {
                accreditation_status: status,
                ..*old(record)
            }),
        ),
{
    if record.authority != *authority {
        return Err(ErrorCode::NotAuthorized);
    }
    if status > MAX_STATUS {
        return Err(ErrorCode::UnknownStatus);
    }
    record.accreditation_status = status;
    Ok(())
}

/// Update aml status of account
pub fn update_aml_status(record: &mut Metadata, authority: &Pubkey, status: u8) -> (r: Result<
    (),
    ErrorCode,
>)
    ensures
        updated(
            r,
            *old(record),
            *final(record),
            single_status_result(*old(record), *authority, status, Metadata {
                aml_status: status,
                ..*old(record)
            }),
        ),
{
    if record.authority != *authority {
        return Err(ErrorCode::NotAuthorized);
    }
    if status > MAX_STATUS {
        return Err(ErrorCode::UnknownStatus);
    }
    record.aml_status = status;
    Ok(())
}

/// Update kyc status of account
pub fn update_kyc_status(record: &mut Metadata, authority: &Pubkey, status: u8) -> (r: Result<
    (),
    ErrorCode,
>)
    ensures
        updated(
            r,
            *old(record),
            *final(record),
            single_status_result(*old(record), *authority, status, Metadata {
                kyc_status: status,
                ..*old(record)
            }),
        ),
{
    if record.authority != *authority {
        return Err(ErrorCode::NotAuthorized);
    }
    if status > MAX_STATUS {
        return Err(ErrorCode::UnknownStatus);
    }
    record.kyc_status = status;
    Ok(())
}

/// What an update of one status comes to: only the authority may write, and
/// the status must be known.
pub open spec fn single_status_result(
    record: Metadata,
    authority: Pubkey,
    status: u8,
    written: Metadata,
) -> Result<Metadata, ErrorCode> {
    if record.authority != authority {
        Err(ErrorCode::NotAuthorized)
    } else if status > MAX_STATUS {
        Err(ErrorCode::UnknownStatus)
    } else {
        Ok(written)
    }
}

/// The seeds of the record of a subject under a group: the group and the
/// subject.
pub open spec fn record_address_seeds(group: Pubkey, subject: Pubkey) -> Seq<Seq<u8>> {
    seq![group@, subject@]
}

/// The address of the record of a subject under a group, where there is one.
pub fn try_get_record_address(program_id: &Pubkey, group: &Pubkey, subject: &Pubkey) -> (r: Option<
    Pubkey,
>)
    ensures
        r == match derive_address(record_address_seeds(*group, *subject), *program_id) {
            Some((address, _)) => Some(address),
            None => None,
        },
{
    let seeds = [group.as_ref(), subject.as_ref()];
    assert(seeds_of(seeds) =~= record_address_seeds(*group, *subject));
    match Pubkey::try_find_address(&seeds, program_id) {
        Some((address, _)) => Some(address),
        None => None,
    }
}

// ---------------------------------------------------------------------------
// The accounts of the instructions
// ---------------------------------------------------------------------------

/// The mark of the program on the accounts that hold its records.
pub const METADATA_DISCRIMINATOR: [u8; 8] = [72, 11, 121, 26, 111, 181, 85, 93];

/// The address derived for the record of a subject under a group.
pub open spec fn record_address(program_id: Pubkey, group: Pubkey, subject: Pubkey) -> Option<
    Pubkey,
> {
    match derive_address(record_address_seeds(group, subject), program_id) {
        Some((address, _)) => Some(address),
        None => None,
    }
}

/// What an account holds of a record: the program's mark, the bump seed, the
/// three statuses and the authority, laid out as an identity record is.
pub open spec fn stored_of(record: Metadata) -> Identity {
    Identity {
        discriminator: METADATA_DISCRIMINATOR,
        bump: record.bump,
        ia_status: record.accreditation_status,
        aml_status: record.aml_status,
        kyc_status: record.kyc_status,
        authority: record.authority,
    }
}

/// The record in what an account holds.
pub open spec fn record_of(stored: Identity) -> Metadata {
    Metadata {
        bump: stored.bump,
        accreditation_status: stored.ia_status,
        aml_status: stored.aml_status,
        kyc_status: stored.kyc_status,
        authority: stored.authority,
    }
}

/// The record that an account holds for the program: the program must own
/// the account, and its data must begin with the program's mark and a record.
pub open spec fn stored_record(program_id: Pubkey, info: &AccountInfo) -> Result<
    Metadata,
    ProgramError,
> {
    if owner_check(info, program_id) is Err {
        Err(ProgramError::IllegalOwner)
    } else if Identity::parse(info.data@) is None {
        Err(ProgramError::BorshIoError)
    } else if (Identity::parse(info.data@)->0).0.discriminator != METADATA_DISCRIMINATOR {
        Err(ProgramError::InvalidAccountData)
    } else {
        Ok(record_of((Identity::parse(info.data@)->0).0))
    }
}

/// Reads the record that the account holds for the program.
pub fn get_stored_record(program_id: &Pubkey, info: &AccountInfo) -> (r: Result<
    Metadata,
    ProgramError,
>)
    ensures
        r == stored_record(*program_id, info),
{
    assert_owned_by(info, program_id)?;
    let stored = match Identity::deserialize(info.data.as_slice()) {
        Some(stored) => stored,
        None => {
            return Err(ProgramError::BorshIoError);
        },
    };
    if !crate::wire::same_bytes(&stored.discriminator, &METADATA_DISCRIMINATOR) {
        return Err(ProgramError::InvalidAccountData);
    }
    Ok(
        Metadata {
            bump: stored.bump,
            accreditation_status: stored.ia_status,
            aml_status: stored.aml_status,
            kyc_status: stored.kyc_status,
            authority: stored.authority,
        },
    )
}

/// What an account holds behind a record.
pub open spec fn behind_record(data: Seq<u8>) -> Seq<u8> {
    if data.len() > IDENTITY_LEN {
        data.skip(IDENTITY_LEN as int)
    } else {
        Seq::empty()
    }
}

/// Writes the record into the account: the program's mark and the record
/// take the place of the first 44 bytes, and what follows them stays.
pub fn store_record(info: &mut AccountInfo, record: &Metadata)
    ensures
        final(info).data@ == stored_of(*record).wire() + behind_record(old(info).data@),
        final(info).key == old(info).key,
        final(info).owner == old(info).owner,
        final(info).is_signer == old(info).is_signer,
        final(info).is_writable == old(info).is_writable,
{
    let stored = Identity {
        discriminator: METADATA_DISCRIMINATOR,
        bump: record.bump,
        ia_status: record.accreditation_status,
        aml_status: record.aml_status,
        kyc_status: record.kyc_status,
        authority: record.authority,
    };
    let mut out = stored.serialize();
    if info.data.len() > IDENTITY_LEN {
        let mut i: usize = IDENTITY_LEN;
        assert(out@ =~= stored.wire() + info.data@.subrange(44, 44));
        while i < info.data.len()
            invariant
                IDENTITY_LEN <= i <= info.data@.len(),
                out@ == stored.wire() + info.data@.subrange(44, i as int),
            decreases info.data@.len() - i,
        {
            out.push(info.data[i]);
            assert(out@ =~= stored.wire() + info.data@.subrange(44, i + 1));
            i += 1;
        }
        assert(info.data@.subrange(44, i as int) =~= info.data@.skip(44));
    } else {
        assert(stored.wire() + Seq::<u8>::empty() =~= stored.wire());
    }
    info.data = out;
}

/// A record that was stored in an account of the program is read back from
/// it.
pub proof fn lemma_stored_record_is_read_back(
    program_id: Pubkey,
    before: &AccountInfo,
    after: &AccountInfo,
    record: Metadata,
)
    requires
        after.owner == program_id,
        after.data@ == stored_of(record).wire() + behind_record(before.data@),
    ensures
        stored_record(program_id, after) == Ok::<Metadata, ProgramError>(record),
{
    lemma_identity_round_trip(stored_of(record), behind_record(before.data@));
}

/// The accounts of `create_record`.
#[derive(Clone, Debug, PartialEq, Eq)]
pub struct CreateRecord {
    /// Who pays for the record, and whom it is about.
    pub signer: AccountInfo,
    /// The account that is to hold the record.
    pub record: AccountInfo,
    pub system_program: AccountInfo,
    /// Who may update the record.
    pub authority: AccountInfo,
}

impl CreateRecord {
    /// The signer signed and pays, the record's account is new and is the
    /// one derived for the signer under the group, the system program is the
    /// system program, and the authority is a plain account.
    pub open spec fn accounts_check(&self, program_id: Pubkey, group: Pubkey) -> Result<
        (),
        ProgramError,
    > {
        if signer_check(&self.signer) is Err {
            signer_check(&self.signer)
        } else if writable_check(&self.signer) is Err {
            writable_check(&self.signer)
        } else if uninitialized_check(&self.record) is Err {
            uninitialized_check(&self.record)
        } else if address_check(&self.record, record_address(program_id, group, self.signer.key))
            is Err {
            Err(ProgramError::InvalidSeeds)
        } else if system_program_check(&self.system_program) is Err {
            system_program_check(&self.system_program)
        } else {
            system_account_check(&self.authority)
        }
    }

    pub fn try_accounts(&self, program_id: &Pubkey, group: &Pubkey) -> (r: Result<(), ProgramError>)
        ensures
            r == self.accounts_check(*program_id, *group),
    {
        assert_signer(&self.signer)?;
        assert_writable(&self.signer)?;
        assert_uninitialized(&self.record)?;
        assert_address(&self.record, try_get_record_address(program_id, group, &self.signer.key))?;
        assert_system_program(&self.system_program)?;
        assert_system_account(&self.authority)
    }
}

/// The accounts of an update of a record.
#[derive(Clone, Debug, PartialEq, Eq)]
pub struct UpdateRecord {
    pub record: AccountInfo,
    /// Whom the record is about.
    pub subject: AccountInfo,
    /// Who signs the update.
    pub authority: AccountInfo,
}

impl UpdateRecord {
    /// The record is a record of the program that can be written to, at the
    /// address derived for the subject under the group; the subject is a
    /// plain account; the authority signed.
    pub open spec fn accounts_check(&self, program_id: Pubkey, group: Pubkey) -> Result<
        Metadata,
        ProgramError,
    > {
        let record = stored_record(program_id, &self.record);
        if record is Err {
            record
        } else if writable_check(&self.record) is Err {
            Err(ProgramError::Immutable)
        } else if address_check(&self.record, record_address(program_id, group, self.subject.key))
            is Err {
            Err(ProgramError::InvalidSeeds)
        } else if system_account_check(&self.subject) is Err {
            Err(ProgramError::IllegalOwner)
        } else if signer_check(&self.authority) is Err {
            Err(ProgramError::MissingRequiredSignature)
        } else {
            record
        }
    }

    pub fn try_accounts(&self, program_id: &Pubkey, group: &Pubkey) -> (r: Result<
        Metadata,
        ProgramError,
    >)
        ensures
            r == self.accounts_check(*program_id, *group),
    {
        let record = get_stored_record(program_id, &self.record)?;
        assert_writable(&self.record)?;
        assert_address(&self.record, try_get_record_address(program_id, group, &self.subject.key))?;
        assert_system_account(&self.subject)?;
        assert_signer(&self.authority)?;
        Ok(record)
    }
}

} // verus!
