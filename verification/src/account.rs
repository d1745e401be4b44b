//! What an instruction sees of an account.

use vstd::prelude::*;

use crate::enums::{parse_account_type, read_account_type, GovernanceAccountType};
use crate::error::{GovernanceToolsError, ProgramError};
use crate::pubkey::{Pubkey, SYSTEM_PROGRAM_ID};

verus! {

/// An account as it is handed to an instruction: its address, the program
/// that owns it, whether its key signed the transaction, and its data.
#[derive(Clone, Debug, PartialEq, Eq)]
pub struct AccountInfo {
    /// Address of the account.
    pub key: Pubkey,
    /// Whether the transaction was signed with the account's key.
    pub is_signer: bool,
    /// Whether the instruction may write to the account.
    pub is_writable: bool,
    /// Program that owns the account.
    pub owner: Pubkey,
    /// The bytes that the account holds.
    pub data: Vec<u8>,
}

impl AccountInfo {
    pub fn new(key: Pubkey, is_signer: bool, is_writable: bool, owner: Pubkey, data: Vec<u8>) -> (r:
        AccountInfo)
        ensures
            r.key == key,
            r.is_signer == is_signer,
            r.is_writable == is_writable,
            r.owner == owner,
            r.data == data,
    {
        AccountInfo { key, is_signer, is_writable, owner, data }
    }

    /// An account that holds no data does not exist yet.
    pub fn data_is_empty(&self) -> (r: bool)
        ensures
            r == (self.data@.len() == 0),
    {
        self.data.len() == 0
    }
}

/// Whether `info` can be read as a record of `program_id`: it holds data,
/// and the program owns it.
pub open spec fn account_check(program_id: Pubkey, info: &AccountInfo) -> Result<
    (),
    ProgramError,
> {
    if info.data@.len() == 0 {
        Err(ProgramError::Tools(GovernanceToolsError::AccountDoesNotExist))
    } else if info.owner != program_id {
        Err(ProgramError::Tools(GovernanceToolsError::InvalidAccountOwner))
    } else {
        Ok(())
    }
}

/// Asserts that the account holds data and is owned by the program.
pub fn assert_account_exists(program_id: &Pubkey, info: &AccountInfo) -> (r: Result<
    (),
    ProgramError,
>)
    ensures
        r == account_check(*program_id, info),
{
    if info.data_is_empty() {
        return Err(ProgramError::Tools(GovernanceToolsError::AccountDoesNotExist));
    }
    if info.owner != *program_id {
        return Err(ProgramError::Tools(GovernanceToolsError::InvalidAccountOwner));
    }
    Ok(())
}

/// The type of the record that `info` holds for `program_id`.
pub open spec fn account_type_of(program_id: Pubkey, info: &AccountInfo) -> Result<
    GovernanceAccountType,
    ProgramError,
> {
    if account_check(program_id, info) is Err {
        Err(account_check(program_id, info)->Err_0)
    } else if parse_account_type(info.data@) is None {
        Err(ProgramError::BorshIoError)
    } else {
        Ok((parse_account_type(info.data@)->0).0)
    }
}

/// Reads the type of the record off the first byte of the account, after
/// checking that the account holds data and is owned by the program.
pub fn get_account_type(program_id: &Pubkey, info: &AccountInfo) -> (r: Result<
    GovernanceAccountType,
    ProgramError,
>)
    ensures
        r == account_type_of(*program_id, info),
{
    assert_account_exists(program_id, info)?;
    assert(info.data@.skip(0) =~= info.data@);
    match read_account_type(info.data.as_slice(), 0) {
        Some((account_type, _)) => Ok(account_type),
        None => Err(ProgramError::BorshIoError),
    }
}

// ---------------------------------------------------------------------------
// What an instruction asks of its accounts
// ---------------------------------------------------------------------------

/// The key of the account signed the transaction.
pub open spec fn signer_check(info: &AccountInfo) -> Result<(), ProgramError> {
    if info.is_signer {
        Ok(())
    } else {
        Err(ProgramError::MissingRequiredSignature)
    }
}

/// Asserts that the key of the account signed the transaction.
pub fn assert_signer(info: &AccountInfo) -> (r: Result<(), ProgramError>)
    ensures
        r == signer_check(info),
{
    if info.is_signer {
        Ok(())
    } else {
        Err(ProgramError::MissingRequiredSignature)
    }
}

/// The instruction may write to the account.
pub open spec fn writable_check(info: &AccountInfo) -> Result<(), ProgramError> {
    if info.is_writable {
        Ok(())
    } else {
        Err(ProgramError::Immutable)
    }
}

/// Asserts that the instruction may write to the account.
pub fn assert_writable(info: &AccountInfo) -> (r: Result<(), ProgramError>)
    ensures
        r == writable_check(info),
{
    if info.is_writable {
        Ok(())
    } else {
        Err(ProgramError::Immutable)
    }
}

/// The account is owned by the program.
pub open spec fn owner_check(info: &AccountInfo, owner: Pubkey) -> Result<(), ProgramError> {
    if info.owner == owner {
        Ok(())
    } else {
        Err(ProgramError::IllegalOwner)
    }
}

/// Asserts that the account is owned by the program.
pub fn assert_owned_by(info: &AccountInfo, owner: &Pubkey) -> (r: Result<(), ProgramError>)
    ensures
        r == owner_check(info, *owner),
{
    if info.owner == *owner {
        Ok(())
    } else {
        Err(ProgramError::IllegalOwner)
    }
}

/// The account is the one at the derived address.
pub open spec fn address_check(info: &AccountInfo, derived: Option<Pubkey>) -> Result<
    (),
    ProgramError,
> {
    if derived == Some(info.key) {
        Ok(())
    } else {
        Err(ProgramError::InvalidSeeds)
    }
}

/// Asserts that the account is the one at the derived address.
pub fn assert_address(info: &AccountInfo, derived: Option<Pubkey>) -> (r: Result<(), ProgramError>)
    ensures
        r == address_check(info, derived),
{
    match derived {
        Some(address) => {
            if address == info.key {
                Ok(())
            } else {
                Err(ProgramError::InvalidSeeds)
            }
        },
        None => Err(ProgramError::InvalidSeeds),
    }
}

/// The account is the program with that address.
pub open spec fn program_check(info: &AccountInfo, program: Pubkey) -> Result<(), ProgramError> {
    if info.key == program {
        Ok(())
    } else {
        Err(ProgramError::IncorrectProgramId)
    }
}

/// Asserts that the account is the program with that address.
pub fn assert_program(info: &AccountInfo, program: &Pubkey) -> (r: Result<(), ProgramError>)
    ensures
        r == program_check(info, *program),
{
    if info.key == *program {
        Ok(())
    } else {
        Err(ProgramError::IncorrectProgramId)
    }
}

/// The system program.
pub open spec fn system_program() -> Pubkey {
    Pubkey { bytes: SYSTEM_PROGRAM_ID }
}

/// The account is a plain account: the system program owns it.
pub open spec fn system_account_check(info: &AccountInfo) -> Result<(), ProgramError> {
    owner_check(info, system_program())
}

/// Asserts that the system program owns the account.
pub fn assert_system_account(info: &AccountInfo) -> (r: Result<(), ProgramError>)
    ensures
        r == system_account_check(info),
{
    assert_owned_by(info, &Pubkey { bytes: SYSTEM_PROGRAM_ID })
}

/// The account is the system program.
pub open spec fn system_program_check(info: &AccountInfo) -> Result<(), ProgramError> {
    program_check(info, system_program())
}

/// Asserts that the account is the system program.
pub fn assert_system_program(info: &AccountInfo) -> (r: Result<(), ProgramError>)
    ensures
        r == system_program_check(info),
{
    assert_program(info, &Pubkey { bytes: SYSTEM_PROGRAM_ID })
}

/// The account is new: it holds nothing, and no program has taken it.
pub open spec fn uninitialized_check(info: &AccountInfo) -> Result<(), ProgramError> {
    if info.data@.len() == 0 && info.owner == system_program() {
        Ok(())
    } else {
        Err(ProgramError::Tools(GovernanceToolsError::AccountAlreadyInitialized))
    }
}

/// Asserts that the account holds nothing and that no program has taken it.
pub fn assert_uninitialized(info: &AccountInfo) -> (r: Result<(), ProgramError>)
    ensures
        r == uninitialized_check(info),
{
    if info.data_is_empty() && info.owner == (Pubkey { bytes: SYSTEM_PROGRAM_ID }) {
        Ok(())
    } else {
        Err(ProgramError::Tools(GovernanceToolsError::AccountAlreadyInitialized))
    }
}

} // verus!
