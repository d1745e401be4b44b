//! The identity verification program's own rules: who may write an identity
//! record, and which statuses it may hold.

use vstd::prelude::*;

use crate::account::{
    address_check, assert_address, assert_owned_by, assert_signer, assert_system_account,
    assert_system_program, assert_uninitialized, assert_writable, owner_check, signer_check,
    system_account_check, system_program_check, uninitialized_check, writable_check,
    AccountInfo,
};
use crate::error::ProgramError;
use crate::identity::{lemma_identity_round_trip, Identity, IDENTITY_LEN};
use crate::pubkey::Pubkey;
use crate::verification::{identity_address, try_get_identity_address};

verus! {

/// Why the identity verification program refuses an instruction.
#[derive(Clone, Copy, Debug, PartialEq, Eq, Structural)]
pub enum IdentityVerificationErrorCode {
    /// Unexpected Status
    UnknownStatus,
    /// Not Authorized
    NotAuthorized,
}

/// The largest status: 0 is initial, 1 started, 2 approved, 3 rejected.
pub const MAX_STATUS: u8 = 3;

/// The record that the program keeps of a subject under a group.
#[derive(Clone, Copy, Debug, PartialEq, Eq)]
pub struct IdentityRecord {
    /// bump seed used in deriving the pda for the status account
    pub bump: u8,
    /// Accreditation status of the user
    pub ia_status: u8,
    /// AML status of the user
    pub aml_status: u8,
    /// KYC status of the user
    pub kyc_status: u8,
    /// Account who has update authority over the account
    pub authority: Pubkey,
}

/// Bytes of the account that holds a record: the discriminator, the bump
/// seed, three statuses and the authority.
pub const IDENTITY_RECORD_LEN: usize = 8 + 1 + 3 + 32;

/// Which of the three statuses an update is for.
#[derive(Clone, Copy, Debug, PartialEq, Eq, Structural)]
pub enum StatusKind {
    Accreditation,
    Aml,
    Kyc,
}

/// The record with one status set.
pub open spec fn with_status(record: IdentityRecord, kind: StatusKind, status: u8) -> IdentityRecord {
    match kind {
        StatusKind::Accreditation => IdentityRecord { ia_status: status, ..record },
        StatusKind::Aml => IdentityRecord { aml_status: status, ..record },
        StatusKind::Kyc => IdentityRecord { kyc_status: status, ..record },
    }
}

/// What an update of one status comes to: only the authority of the record
/// may write it, and only a status that is known.
pub open spec fn update_status_result(
    record: IdentityRecord,
    authority: Pubkey,
    kind: StatusKind,
    status: u8,
) -> Result<IdentityRecord, IdentityVerificationErrorCode> {
    if record.authority != authority {
        Err(IdentityVerificationErrorCode::NotAuthorized)
    } else if status > MAX_STATUS {
        Err(IdentityVerificationErrorCode::UnknownStatus)
    } else {
        Ok(with_status(record, kind, status))
    }
}

/// What setting all three statuses at once comes to.
pub open spec fn update_all_result(record: IdentityRecord, authority: Pubkey, status: u8) -> Result<
    IdentityRecord,
    IdentityVerificationErrorCode,
> {
    if record.authority != authority {
        Err(IdentityVerificationErrorCode::NotAuthorized)
    } else {
        Ok(IdentityRecord { aml_status: status, kyc_status: status, ia_status: status, ..record })
    }
}

/// An update left the record as specified, or left it alone.
pub open spec fn updated(
    r: Result<(), IdentityVerificationErrorCode>,
    before: IdentityRecord,
    after: IdentityRecord,
    expected: Result<IdentityRecord, IdentityVerificationErrorCode>,
) -> bool {
    match expected {
        Ok(record) => r == Ok::<(), IdentityVerificationErrorCode>(()) && after == record,
        Err(e) => r == Err::<(), IdentityVerificationErrorCode>(e) && after == before,
    }
}

/// Create a record of kyc/aml metadata for the user: every status starts out
/// initial, and `authority` may update them.
pub fn create_record(record: &mut IdentityRecord, authority: &Pubkey, bump: u8) -> (r: Result<
    (),
    IdentityVerificationErrorCode,
>)
    ensures
        r == Ok::<(), IdentityVerificationErrorCode>(()),
        *final(record) == (IdentityRecord {
            bump,
            ia_status: 0,
            aml_status: 0,
            kyc_status: 0,
            authority: *authority,
        }),
{
    record.aml_status = 0;
    record.ia_status = 0;
    record.kyc_status = 0;
    record.bump = bump;
    record.authority = *authority;
    Ok(())
}

/// Update all statuses to approved
pub fn approve(record: &mut IdentityRecord, authority: &Pubkey) -> (r: Result<
    (),
    IdentityVerificationErrorCode,
>)
    ensures
        updated(r, *old(record), *final(record), update_all_result(*old(record), *authority, 2)),
{
    if record.authority != *authority {
        return Err(IdentityVerificationErrorCode::NotAuthorized);
    }
    record.aml_status = 2;
    record.kyc_status = 2;
    record.ia_status = 2;
    Ok(())
}

/// Update all statuses to denied
pub fn deny(record: &mut IdentityRecord, authority: &Pubkey) -> (r: Result<
    (),
    IdentityVerificationErrorCode,
>)
    ensures
        updated(r, *old(record), *final(record), update_all_result(*old(record), *authority, 3)),
{
    if record.authority != *authority {
        return Err(IdentityVerificationErrorCode::NotAuthorized);
    }
    record.aml_status = 3;
    record.kyc_status = 3;
    record.ia_status = 3;
    Ok(())
}

/// Update aml status of account
pub fn update_aml_status(record: &mut IdentityRecord, authority: &Pubkey, status: u8) -> (r: Result<
    (),
    IdentityVerificationErrorCode,
>)
    ensures
        updated(
            r,
            *old(record),
            *final(record),
            update_status_result(*old(record), *authority, StatusKind::Aml, status),
        ),
{
    if record.authority != *authority {
        return Err(IdentityVerificationErrorCode::NotAuthorized);
    }
    if status > MAX_STATUS {
        return Err(IdentityVerificationErrorCode::UnknownStatus);
    }
    record.aml_status = status;
    Ok(())
}

/// Update ia status
pub fn update_ia_status(record: &mut IdentityRecord, authority: &Pubkey, status: u8) -> (r: Result<
    (),
    IdentityVerificationErrorCode,
>)
    ensures
        updated(
            r,
            *old(record),
            *final(record),
            update_status_result(*old(record), *authority, StatusKind::Accreditation, status),
        ),
{
    if record.authority != *authority {
        return Err(IdentityVerificationErrorCode::NotAuthorized);
    }
    if status > MAX_STATUS {
        return Err(IdentityVerificationErrorCode::UnknownStatus);
    }
    record.ia_status = status;
    Ok(())
}

/// Update kyc status of account
pub fn update_kyc_status(record: &mut IdentityRecord, authority: &Pubkey, status: u8) -> (r: Result<
    (),
    IdentityVerificationErrorCode,
>)
    ensures
        updated(
            r,
            *old(record),
            *final(record),
            update_status_result(*old(record), *authority, StatusKind::Kyc, status),
        ),
{
    if record.authority != *authority {
        return Err(IdentityVerificationErrorCode::NotAuthorized);
    }
    if status > MAX_STATUS {
        return Err(IdentityVerificationErrorCode::UnknownStatus);
    }
    record.kyc_status = status;
    Ok(())
}

/// Hands the authority over a record to another account: only the present
/// authority may.
pub fn transfer_authority(record: &mut IdentityRecord, transfer_from: &Pubkey, transfer_to: &Pubkey) -> (r:
    Result<(), IdentityVerificationErrorCode>)
    ensures
        updated(
            r,
            *old(record),
            *final(record),
            if old(record).authority != *transfer_from {
                Err::<IdentityRecord, IdentityVerificationErrorCode>(
                    IdentityVerificationErrorCode::NotAuthorized,
                )
            } else {
                Ok::<IdentityRecord, IdentityVerificationErrorCode>(
                    IdentityRecord { authority: *transfer_to, ..*old(record) },
                )
            },
        ),
{
    if record.authority != *transfer_from {
        return Err(IdentityVerificationErrorCode::NotAuthorized);
    }
    record.authority = *transfer_to;
    Ok(())
}

/// Delete a record and return funds to the subject of the record: only the
/// authority of the record may.
pub fn delete_record(record: &IdentityRecord, signer: &Pubkey) -> (r: Result<
    (),
    IdentityVerificationErrorCode,
>)
    ensures
        record.authority == *signer ==> r == Ok::<(), IdentityVerificationErrorCode>(()),
        record.authority != *signer ==> r == Err::<(), IdentityVerificationErrorCode>(
            IdentityVerificationErrorCode::NotAuthorized,
        ),
{
    if record.authority != *signer {
        return Err(IdentityVerificationErrorCode::NotAuthorized);
    }
    Ok(())
}

/// Whether the subject of the record is verified: all three statuses are
/// approved.
pub fn get_is_verified(record: &IdentityRecord) -> (r: Result<bool, IdentityVerificationErrorCode>)
    ensures
        r == Ok::<bool, IdentityVerificationErrorCode>(
            record.ia_status == 2 && record.kyc_status == 2 && record.aml_status == 2,
        ),
{
    let mut is_verified = false;
    if record.ia_status == 2 && record.kyc_status == 2 && record.aml_status == 2 {
        is_verified = true
    }
    Ok(is_verified)
}

/// The address of the record of `subject` under `group`, where there is one:
/// derived from `identity`, the group and the subject.
pub fn try_get_record_address(program_id: &Pubkey, group: &Pubkey, subject: &Pubkey) -> (r: Option<
    Pubkey,
>)
    ensures
        r == match identity_address(*program_id, *group, *subject) {
            Some((address, _)) => Some(address),
            None => None,
        },
{
    try_get_identity_address(program_id, group, subject)
}

/// Approving makes the subject verified, and denying makes the subject not
/// verified, whatever the record said before.
pub proof fn lemma_approve_verifies(record: IdentityRecord)
    ensures
        ({
            let approved = update_all_result(record, record.authority, 2)->Ok_0;
            let denied = update_all_result(record, record.authority, 3)->Ok_0;
            &&& approved.ia_status == 2 && approved.kyc_status == 2 && approved.aml_status == 2
            &&& !(denied.ia_status == 2 && denied.kyc_status == 2 && denied.aml_status == 2)
        }),
{
}

// ---------------------------------------------------------------------------
// The accounts of the instructions
// ---------------------------------------------------------------------------

/// The mark of the program on the accounts that hold its records.
pub const IDENTITY_RECORD_DISCRIMINATOR: [u8; 8] = [168, 35, 21, 172, 113, 130, 226, 19];

/// The record in what an account holds.
pub open spec fn record_of(stored: Identity) -> IdentityRecord {
    IdentityRecord {
        bump: stored.bump,
        ia_status: stored.ia_status,
        aml_status: stored.aml_status,
        kyc_status: stored.kyc_status,
        authority: stored.authority,
    }
}

/// What an account holds of a record: the program's mark and the record.
pub open spec fn stored_of(record: IdentityRecord) -> Identity {
    Identity {
        discriminator: IDENTITY_RECORD_DISCRIMINATOR,
        bump: record.bump,
        ia_status: record.ia_status,
        aml_status: record.aml_status,
        kyc_status: record.kyc_status,
        authority: record.authority,
    }
}

/// The record that an account holds for the program: the program must own
/// the account, and its data must begin with the program's mark and a record.
pub open spec fn stored_record(program_id: Pubkey, info: &AccountInfo) -> Result<
    IdentityRecord,
    ProgramError,
> {
    if owner_check(info, program_id) is Err {
        Err(ProgramError::IllegalOwner)
    } else if Identity::parse(info.data@) is None {
        Err(ProgramError::BorshIoError)
    } else if (Identity::parse(info.data@)->0).0.discriminator != IDENTITY_RECORD_DISCRIMINATOR {
        Err(ProgramError::InvalidAccountData)
    } else {
        Ok(record_of((Identity::parse(info.data@)->0).0))
    }
}

/// The record of `subject` under `group`: the account must hold a record of
/// the program and be the one derived from `identity`, the group and the
/// subject; where the record is to be changed, it must be writable.
pub open spec fn record_account_check(
    program_id: Pubkey,
    group: Pubkey,
    info: &AccountInfo,
    subject: Pubkey,
    to_be_written: bool,
) -> Result<IdentityRecord, ProgramError> {
    if stored_record(program_id, info) is Err {
        stored_record(program_id, info)
    } else if to_be_written && !info.is_writable {
        Err(ProgramError::Immutable)
    } else if identity_address(program_id, group, subject) is None || (identity_address(
        program_id,
        group,
        subject,
    )->0).0 != info.key {
        Err(ProgramError::InvalidSeeds)
    } else {
        stored_record(program_id, info)
    }
}

/// Reads the record that the account holds for the program.
pub fn get_stored_record(program_id: &Pubkey, info: &AccountInfo) -> (r: Result<
    IdentityRecord,
    ProgramError,
>)
    ensures
        r == stored_record(*program_id, info),
{
    assert_owned_by(info, program_id)?;
    let stored = match Identity::deserialize(info.data.as_slice()) {
        Some(stored) => stored,
        None => {
            return Err(ProgramError::BorshIoError);
        },
    };
    if !crate::wire::same_bytes(&stored.discriminator, &IDENTITY_RECORD_DISCRIMINATOR) {
        return Err(ProgramError::InvalidAccountData);
    }
    Ok(
        IdentityRecord {
            bump: stored.bump,
            ia_status: stored.ia_status,
            aml_status: stored.aml_status,
            kyc_status: stored.kyc_status,
            authority: stored.authority,
        },
    )
}

/// Reads the record of `subject` under `group` off its account.
pub fn get_record_for_subject(
    program_id: &Pubkey,
    group: &Pubkey,
    info: &AccountInfo,
    subject: &Pubkey,
    to_be_written: bool,
) -> (r: Result<IdentityRecord, ProgramError>)
    ensures
        r == record_account_check(*program_id, *group, info, *subject, to_be_written),
{
    let record = get_stored_record(program_id, info)?;
    if to_be_written && !info.is_writable {
        return Err(ProgramError::Immutable);
    }
    assert_address(info, try_get_identity_address(program_id, group, subject))?;
    Ok(record)
}

/// What an account holds behind a record.
pub open spec fn behind_record(data: Seq<u8>) -> Seq<u8> {
    if data.len() > IDENTITY_LEN {
        data.skip(IDENTITY_LEN as int)
    } else {
        Seq::empty()
    }
}

/// Writes the record into the account: the program's mark and the record
/// take the place of the first 44 bytes, and what follows them stays.
pub fn store_record(info: &mut AccountInfo, record: &IdentityRecord)
    ensures
        final(info).data@ == stored_of(*record).wire() + behind_record(old(info).data@),
        final(info).key == old(info).key,
        final(info).owner == old(info).owner,
        final(info).is_signer == old(info).is_signer,
        final(info).is_writable == old(info).is_writable,
{
    let stored = Identity {
        discriminator: IDENTITY_RECORD_DISCRIMINATOR,
        bump: record.bump,
        ia_status: record.ia_status,
        aml_status: record.aml_status,
        kyc_status: record.kyc_status,
        authority: record.authority,
    };
    let mut out = stored.serialize();
    if info.data.len() > IDENTITY_LEN {
        let mut i: usize = IDENTITY_LEN;
        assert(out@ =~= stored.wire() + info.data@.subrange(44, 44));
        while i < info.data.len()
            invariant
                IDENTITY_LEN <= i <= info.data@.len(),
                out@ == stored.wire() + info.data@.subrange(44, i as int),
            decreases info.data@.len() - i,
        {
            out.push(info.data[i]);
            assert(out@ =~= stored.wire() + info.data@.subrange(44, i + 1));
            i += 1;
        }
        assert(info.data@.subrange(44, i as int) =~= info.data@.skip(44));
    } else {
        assert(stored.wire() + Seq::<u8>::empty() =~= stored.wire());
    }
    info.data = out;
}

/// A record that was stored in an account of the program is read back from
/// it.
pub proof fn lemma_stored_record_is_read_back(
    program_id: Pubkey,
    before: &AccountInfo,
    after: &AccountInfo,
    record: IdentityRecord,
)
    requires
        after.owner == program_id,
        after.data@ == stored_of(record).wire() + behind_record(before.data@),
    ensures
        stored_record(program_id, after) == Ok::<IdentityRecord, ProgramError>(record),
{
    lemma_identity_round_trip(stored_of(record), behind_record(before.data@));
}

/// The accounts of `create_record`.
#[derive(Clone, Debug, PartialEq, Eq)]
pub struct CreateRecord {
    /// Who pays for the record, and whom it is about.
    pub signer: AccountInfo,
    /// The account that is to hold the record.
    pub record: AccountInfo,
    pub system_program: AccountInfo,
    /// Who may update the record.
    pub authority: AccountInfo,
}

impl CreateRecord {
    /// The signer signed and pays, the record's account is new and is the
    /// one derived for the signer under the group, the system program is the
    /// system program, and the authority is a plain account.
    pub open spec fn accounts_check(&self, program_id: Pubkey, group: Pubkey) -> Result<
        (),
        ProgramError,
    > {
        if signer_check(&self.signer) is Err {
            signer_check(&self.signer)
        } else if writable_check(&self.signer) is Err {
            writable_check(&self.signer)
        } else if uninitialized_check(&self.record) is Err {
            uninitialized_check(&self.record)
        } else if address_check(
            &self.record,
            match identity_address(program_id, group, self.signer.key) {
                Some((address, _)) => Some(address),
                None => None,
            },
        ) is Err {
            Err(ProgramError::InvalidSeeds)
        } else if system_program_check(&self.system_program) is Err {
            system_program_check(&self.system_program)
        } else {
            system_account_check(&self.authority)
        }
    }

    pub fn try_accounts(&self, program_id: &Pubkey, group: &Pubkey) -> (r: Result<(), ProgramError>)
        ensures
            r == self.accounts_check(*program_id, *group),
    {
        assert_signer(&self.signer)?;
        assert_writable(&self.signer)?;
        assert_uninitialized(&self.record)?;
        assert_address(&self.record, try_get_identity_address(program_id, group, &self.signer.key))?;
        assert_system_program(&self.system_program)?;
        assert_system_account(&self.authority)
    }
}

/// The accounts of an update of a record.
#[derive(Clone, Debug, PartialEq, Eq)]
pub struct UpdateRecord {
    pub record: AccountInfo,
    /// Whom the record is about.
    pub subject: AccountInfo,
    /// Who signs the update.
    pub authority: AccountInfo,
}

impl UpdateRecord {
    /// The record is the subject's, the subject is a plain account, and the
    /// authority signed.
    pub open spec fn accounts_check(&self, program_id: Pubkey, group: Pubkey) -> Result<
        IdentityRecord,
        ProgramError,
    > {
        let record = record_account_check(program_id, group, &self.record, self.subject.key, true);
        if record is Err {
            record
        } else if system_account_check(&self.subject) is Err {
            Err(ProgramError::IllegalOwner)
        } else if signer_check(&self.authority) is Err {
            Err(ProgramError::MissingRequiredSignature)
        } else {
            record
        }
    }

    pub fn try_accounts(&self, program_id: &Pubkey, group: &Pubkey) -> (r: Result<
        IdentityRecord,
        ProgramError,
    >)
        ensures
            r == self.accounts_check(*program_id, *group),
    {
        let record = get_record_for_subject(
            program_id,
            group,
            &self.record,
            &self.subject.key,
            true,
        )?;
        assert_system_account(&self.subject)?;
        assert_signer(&self.authority)?;
        Ok(record)
    }
}

/// The accounts of `transfer_authority`.
#[derive(Clone, Debug, PartialEq, Eq)]
pub struct TransferAuthority {
    pub record: AccountInfo,
    pub subject: AccountInfo,
    /// Who is to have the authority.
    pub transfer_to: AccountInfo,
    /// Who has the authority, and signs.
    pub transfer_from: AccountInfo,
}

impl TransferAuthority {
    /// The record is the subject's, the subject and the new authority are
    /// plain accounts, and the present authority signed.
    pub open spec fn accounts_check(&self, program_id: Pubkey, group: Pubkey) -> Result<
        IdentityRecord,
        ProgramError,
    > {
        let record = record_account_check(program_id, group, &self.record, self.subject.key, true);
        if record is Err {
            record
        } else if system_account_check(&self.subject) is Err {
            Err(ProgramError::IllegalOwner)
        } else if system_account_check(&self.transfer_to) is Err {
            Err(ProgramError::IllegalOwner)
        } else if signer_check(&self.transfer_from) is Err {
            Err(ProgramError::MissingRequiredSignature)
        } else {
            record
        }
    }

    pub fn try_accounts(&self, program_id: &Pubkey, group: &Pubkey) -> (r: Result<
        IdentityRecord,
        ProgramError,
    >)
        ensures
            r == self.accounts_check(*program_id, *group),
    {
        let record = get_record_for_subject(
            program_id,
            group,
            &self.record,
            &self.subject.key,
            true,
        )?;
        assert_system_account(&self.subject)?;
        assert_system_account(&self.transfer_to)?;
        assert_signer(&self.transfer_from)?;
        Ok(record)
    }
}

/// The accounts of `delete_record`.
#[derive(Clone, Debug, PartialEq, Eq)]
pub struct DeleteRecord {
    pub record: AccountInfo,
    pub signer: AccountInfo,
    /// Whom the record is about, and who gets the rent back.
    pub subject: AccountInfo,
    pub system_program: AccountInfo,
}

impl DeleteRecord {
    /// The record is the subject's, the signer signed, the subject is a
    /// plain account that can be written to, and the system program is the
    /// system program.
    pub open spec fn accounts_check(&self, program_id: Pubkey, group: Pubkey) -> Result<
        IdentityRecord,
        ProgramError,
    > {
        let record = record_account_check(program_id, group, &self.record, self.subject.key, true);
        if record is Err {
            record
        } else if signer_check(&self.signer) is Err {
            Err(ProgramError::MissingRequiredSignature)
        } else if writable_check(&self.signer) is Err {
            Err(ProgramError::Immutable)
        } else if system_account_check(&self.subject) is Err {
            Err(ProgramError::IllegalOwner)
        } else if writable_check(&self.subject) is Err {
            Err(ProgramError::Immutable)
        } else if system_program_check(&self.system_program) is Err {
            Err(ProgramError::IncorrectProgramId)
        } else {
            record
        }
    }

    pub fn try_accounts(&self, program_id: &Pubkey, group: &Pubkey) -> (r: Result<
        IdentityRecord,
        ProgramError,
    >)
        ensures
            r == self.accounts_check(*program_id, *group),
    {
        let record = get_record_for_subject(
            program_id,
            group,
            &self.record,
            &self.subject.key,
            true,
        )?;
        assert_signer(&self.signer)?;
        assert_writable(&self.signer)?;
        assert_system_account(&self.subject)?;
        assert_writable(&self.subject)?;
        assert_system_program(&self.system_program)?;
        Ok(record)
    }
}

/// The accounts of `get_is_verified`.
#[derive(Clone, Debug, PartialEq, Eq)]
pub struct IsVerified {
    /// Whom the record is about.
    pub subject: AccountInfo,
    pub record: AccountInfo,
}

impl IsVerified {
    /// The record is the subject's.
    pub open spec fn accounts_check(&self, program_id: Pubkey, group: Pubkey) -> Result<
        IdentityRecord,
        ProgramError,
    > {
        record_account_check(program_id, group, &self.record, self.subject.key, false)
    }

    pub fn try_accounts(&self, program_id: &Pubkey, group: &Pubkey) -> (r: Result<
        IdentityRecord,
        ProgramError,
    >)
        ensures
            r == self.accounts_check(*program_id, *group),
    {
        get_record_for_subject(program_id, group, &self.record, &self.subject.key, false)
    }
}

} // verus!
