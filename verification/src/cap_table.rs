//! The capitalisation table of a mint.

use vstd::prelude::*;

use crate::account::{assert_owned_by, owner_check, AccountInfo};
use crate::error::ProgramError;
use crate::pubkey::Pubkey;
use crate::token::SPL_TOKEN_PROGRAM_ID;

verus! {

/// Who holds how much of a mint.
#[derive(Clone, Debug, PartialEq, Eq)]
pub struct CapTable {
    /// entries for all accounts in the cap table
    pub entries: Vec<CapTableEntry>,
    /// total minted tokens, held by both users and the treasury stock account
    pub authorized_supply: u64,
    /// Amount held in the treasury stock account
    pub reserved_supply: u64,
}

/// One holder of a mint.
#[derive(Clone, Copy, Debug, PartialEq, Eq)]
pub struct CapTableEntry {
    /// The holder of the spl token
    pub holder: Pubkey,
    /// The total tokens held
    pub tokens_held: u64,
    /// The percentage of the total number of tokens / tokens held
    pub percent_held: u64,
}

/// Bytes of the account of a mint.
pub const MINT_LEN: usize = 82;

/// Where a mint's account says whether the mint is in use.
pub const MINT_IS_INITIALIZED_OFFSET: usize = 45;

/// Where the optional mint authority begins in a mint's account.
pub const MINT_AUTHORITY_OFFSET: usize = 0;

/// Where the optional freeze authority begins in a mint's account.
pub const FREEZE_AUTHORITY_OFFSET: usize = 46;

/// The four bytes at `at` say whether a key follows: 0 or 1, little-endian.
pub open spec fn option_tag_valid(data: Seq<u8>, at: int) -> bool {
    data[at] <= 1 && data[at + 1] == 0 && data[at + 2] == 0 && data[at + 3] == 0
}

/// The account is a mint in use: the token program owns it, it is as long as
/// a mint, it says that it is in use, and its two optional authorities are
/// well-formed.
pub open spec fn mint_check(info: &AccountInfo) -> Result<(), ProgramError> {
    if owner_check(info, Pubkey { bytes: SPL_TOKEN_PROGRAM_ID }) is Err {
        Err(ProgramError::IllegalOwner)
    } else if info.data@.len() != MINT_LEN {
        Err(ProgramError::InvalidAccountData)
    } else if !option_tag_valid(info.data@, MINT_AUTHORITY_OFFSET as int) || !option_tag_valid(
        info.data@,
        FREEZE_AUTHORITY_OFFSET as int,
    ) {
        Err(ProgramError::InvalidAccountData)
    } else if info.data@[MINT_IS_INITIALIZED_OFFSET as int] > 1 {
        Err(ProgramError::InvalidAccountData)
    } else if info.data@[MINT_IS_INITIALIZED_OFFSET as int] != 1 {
        Err(ProgramError::UninitializedAccount)
    } else {
        Ok(())
    }
}

fn is_option_tag(data: &Vec<u8>, at: usize) -> (r: bool)
    requires
        at + 4 <= data.len(),
    ensures
        r == option_tag_valid(data@, at as int),
{
    data[at] <= 1 && data[at + 1] == 0 && data[at + 2] == 0 && data[at + 3] == 0
}

/// The accounts of `generate_cap_table`.
#[derive(Clone, Debug, PartialEq, Eq)]
pub struct GenerateCapTable {
    /// The mint whose holders the table lists.
    pub mint: AccountInfo,
}

impl GenerateCapTable {
    /// The mint is a mint in use.
    pub open spec fn accounts_check(&self) -> Result<(), ProgramError> {
        mint_check(&self.mint)
    }

    pub fn try_accounts(&self) -> (r: Result<(), ProgramError>)
        ensures
            r == self.accounts_check(),
    {
        assert_owned_by(&self.mint, &Pubkey { bytes: SPL_TOKEN_PROGRAM_ID })?;
        if self.mint.data.len() != MINT_LEN {
            return Err(ProgramError::InvalidAccountData);
        }
        if !is_option_tag(&self.mint.data, MINT_AUTHORITY_OFFSET) || !is_option_tag(
            &self.mint.data,
            FREEZE_AUTHORITY_OFFSET,
        ) {
            return Err(ProgramError::InvalidAccountData);
        }
        if self.mint.data[MINT_IS_INITIALIZED_OFFSET] > 1 {
            return Err(ProgramError::InvalidAccountData);
        }
        if self.mint.data[MINT_IS_INITIALIZED_OFFSET] != 1 {
            return Err(ProgramError::UninitializedAccount);
        }
        Ok(())
    }
}

/// Generates a cap table: one without entries and without supply.
pub fn generate_cap_table() -> (r: CapTable)
    ensures
        r.entries@ == Seq::<CapTableEntry>::empty(),
        r.authorized_supply == 0,
        r.reserved_supply == 0,
{
    let cap_table = CapTable { entries: Vec::new(), authorized_supply: 0, reserved_supply: 0 };
    cap_table
}

/// Generates a cap table for the mint of the accounts, if they are what the
/// instruction asks for.
pub fn generate(ctx: &GenerateCapTable) -> (r: Result<CapTable, ProgramError>)
    ensures
        match ctx.accounts_check() {
            Ok(_) => r is Ok && r->Ok_0.entries@ == Seq::<CapTableEntry>::empty()
                && r->Ok_0.authorized_supply == 0 && r->Ok_0.reserved_supply == 0,
            Err(e) => r is Err && r->Err_0 == e,
        },
{
    ctx.try_accounts()?;
    Ok(generate_cap_table())
}

} // verus!
