//! Instructions for the token program and the associated token account
//! program, as the capital exchange hands them on.

use vstd::prelude::*;

use crate::account::AccountInfo;
use crate::error::{GovernanceError, ProgramError};
use crate::proposal_transaction::{AccountMetaData, InstructionData, InstructionDataView};
use crate::pubkey::{derive_address, Pubkey, SYSTEM_PROGRAM_ID};
use crate::wire::{array_of, lemma_array_of, wire_u64};

verus! {

/// Address of the token program.
pub const SPL_TOKEN_PROGRAM_ID: [u8; 32] = [
    6, 221, 246, 225, 215, 101, 161, 147, 217, 203, 225, 70, 206, 235, 121, 172, 28, 180, 133,
    237, 95, 91, 55, 145, 58, 140, 245, 133, 126, 255, 0, 169,
];

/// Address of the associated token account program.
pub const ASSOCIATED_TOKEN_PROGRAM_ID: [u8; 32] = [
    140, 151, 37, 143, 78, 36, 137, 241, 187, 61, 16, 41, 20, 142, 13, 131, 11, 90, 19, 153, 218,
    255, 16, 132, 4, 142, 123, 216, 219, 233, 248, 89,
];

/// Address of the rent sysvar.
pub const RENT_SYSVAR_ID: [u8; 32] = [
    6, 167, 213, 23, 25, 44, 92, 81, 33, 140, 201, 76, 61, 74, 241, 127, 88, 218, 238, 8, 155,
    161, 253, 68, 227, 219, 217, 138, 0, 0, 0, 0,
];

/// Tag byte of a transfer in the token program's instruction data.
pub const TRANSFER_TAG: u8 = 3;

/// Bytes of a token account.
pub const TOKEN_ACCOUNT_LEN: usize = 165;

/// Where the mint's key begins in a token account.
pub const TOKEN_ACCOUNT_MINT_OFFSET: usize = 0;

/// Where the owner's key begins in a token account.
pub const TOKEN_ACCOUNT_OWNER_OFFSET: usize = 32;

/// Where the state byte stands in a token account.
pub const TOKEN_ACCOUNT_STATE_OFFSET: usize = 108;

/// The state byte of a token account that is in use.
pub const TOKEN_ACCOUNT_INITIALIZED: u8 = 1;

/// The owner of the tokens that a token account holds: the account must
/// belong to the token program, be as long as a token account and be in use.
pub open spec fn token_account_owner(info: &AccountInfo) -> Result<Pubkey, ProgramError> {
    if info.data@.len() == 0 {
        Err(ProgramError::Governance(GovernanceError::SplTokenAccountDoesNotExist))
    } else if info.owner@ != SPL_TOKEN_PROGRAM_ID@ {
        Err(ProgramError::Governance(GovernanceError::SplTokenAccountWithInvalidOwner))
    } else if info.data@.len() != TOKEN_ACCOUNT_LEN {
        Err(ProgramError::Governance(GovernanceError::SplTokenInvalidTokenAccountData))
    } else if info.data@[TOKEN_ACCOUNT_STATE_OFFSET as int] != TOKEN_ACCOUNT_INITIALIZED {
        Err(ProgramError::Governance(GovernanceError::SplTokenAccountNotInitialized))
    } else {
        Ok(Pubkey { bytes: array_of::<32>(info.data@.subrange(32, 64)) })
    }
}

/// The mint of the tokens that a token account holds, under the same
/// conditions as its owner.
pub open spec fn token_account_mint(info: &AccountInfo) -> Result<Pubkey, ProgramError> {
    match token_account_owner(info) {
        Err(e) => Err(e),
        Ok(_) => Ok(Pubkey { bytes: array_of::<32>(info.data@.subrange(0, 32)) }),
    }
}

/// What the check that a token account holds tokens of `mint` for `holder`
/// comes to: it is a token account in use, the tokens are the holder's, and
/// they are of the mint.
pub open spec fn token_holding_check(info: &AccountInfo, mint: Pubkey, holder: Pubkey) -> Result<
    (),
    ProgramError,
> {
    if token_account_owner(info) is Err {
        Err(token_account_owner(info)->Err_0)
    } else if token_account_owner(info)->Ok_0 != holder {
        Err(ProgramError::IllegalOwner)
    } else if token_account_mint(info)->Ok_0 != mint {
        Err(ProgramError::InvalidAccountData)
    } else {
        Ok(())
    }
}

/// What the checks of every token account come to, before a key is read
/// from it.
pub open spec fn token_account_state_check(info: &AccountInfo) -> Result<(), ProgramError> {
    match token_account_owner(info) {
        Err(e) => Err(e),
        Ok(_) => Ok(()),
    }
}

fn assert_token_account(token_account_info: &AccountInfo) -> (r: Result<(), ProgramError>)
    ensures
        r == token_account_state_check(token_account_info),
        r is Ok ==> token_account_info.data@.len() == TOKEN_ACCOUNT_LEN,
{
    if token_account_info.data_is_empty() {
        return Err(ProgramError::Governance(GovernanceError::SplTokenAccountDoesNotExist));
    }
    let token_program = Pubkey { bytes: SPL_TOKEN_PROGRAM_ID };
    if token_account_info.owner != token_program {
        assert(token_account_info.owner@ != SPL_TOKEN_PROGRAM_ID@) by {
            if token_account_info.owner@ == SPL_TOKEN_PROGRAM_ID@ {
                Pubkey::lemma_view_injective(token_account_info.owner, token_program);
            }
        }
        return Err(ProgramError::Governance(GovernanceError::SplTokenAccountWithInvalidOwner));
    }
    if token_account_info.data.len() != TOKEN_ACCOUNT_LEN {
        return Err(ProgramError::Governance(GovernanceError::SplTokenInvalidTokenAccountData));
    }
    if token_account_info.data[TOKEN_ACCOUNT_STATE_OFFSET] != TOKEN_ACCOUNT_INITIALIZED {
        return Err(ProgramError::Governance(GovernanceError::SplTokenAccountNotInitialized));
    }
    Ok(())
}

/// The key that stands in the 32 bytes from `at` on.
fn key_at(data: &Vec<u8>, at: usize) -> (r: Pubkey)
    requires
        at + 32 <= data.len(),
    ensures
        r == (Pubkey { bytes: array_of::<32>(data@.subrange(at as int, at + 32)) }),
{
    let mut bytes = [0u8; 32];
    let mut i: usize = 0;
    while i < 32
        invariant
            i <= 32,
            at + 32 <= data.len(),
            forall|j: int| 0 <= j < i ==> bytes@[j] == data@[at + j],
        decreases 32 - i,
    {
        bytes[i] = data[at + i];
        i += 1;
    }
    proof {
        let s = data@.subrange(at as int, at + 32);
        assert(bytes@ =~= s);
        lemma_array_of::<32>(s);
    }
    Pubkey { bytes }
}

/// Computes the owner of the tokens that the token account holds.
pub fn get_spl_token_owner(token_account_info: &AccountInfo) -> (r: Result<Pubkey, ProgramError>)
    ensures
        r == token_account_owner(token_account_info),
{
    assert_token_account(token_account_info)?;
    Ok(key_at(&token_account_info.data, TOKEN_ACCOUNT_OWNER_OFFSET))
}

/// Computes the mint of the tokens that the token account holds.
pub fn get_spl_token_mint(token_account_info: &AccountInfo) -> (r: Result<Pubkey, ProgramError>)
    ensures
        r == token_account_mint(token_account_info),
{
    assert_token_account(token_account_info)?;
    Ok(key_at(&token_account_info.data, TOKEN_ACCOUNT_MINT_OFFSET))
}

/// Checks that the token account holds tokens of `mint` for `holder`.
pub fn assert_token_holding(token_account_info: &AccountInfo, mint: &Pubkey, holder: &Pubkey) -> (r:
    Result<(), ProgramError>)
    ensures
        r == token_holding_check(token_account_info, *mint, *holder),
{
    let found_holder = get_spl_token_owner(token_account_info)?;
    if found_holder != *holder {
        return Err(ProgramError::IllegalOwner);
    }
    let found_mint = get_spl_token_mint(token_account_info)?;
    if found_mint != *mint {
        return Err(ProgramError::InvalidAccountData);
    }
    Ok(())
}

/// An account of an instruction as plain values: key, signer, writable.
pub type RawAccountMeta = ([u8; 32], bool, bool);

/// The account meta that plain values stand for.
pub open spec fn meta_of(raw: RawAccountMeta) -> AccountMetaData {
    AccountMetaData { pubkey: Pubkey { bytes: raw.0 }, is_signer: raw.1, is_writable: raw.2 }
}

pub open spec fn account_meta(pubkey: Pubkey, is_signer: bool, is_writable: bool) -> AccountMetaData {
    AccountMetaData { pubkey, is_signer, is_writable }
}

/// The transfer of `amount` tokens from `source` to `destination` under
/// `authority`, with one signer: source and destination are written to, the
/// signer signs, and the data is the transfer tag and the amount.
pub open spec fn transfer_instruction(
    token_program_id: Pubkey,
    source: Pubkey,
    destination: Pubkey,
    authority: Pubkey,
    signer: Pubkey,
    amount: u64,
) -> InstructionDataView {
    InstructionDataView {
        program_id: token_program_id,
        accounts: seq![
            account_meta(source, false, true),
            account_meta(destination, false, true),
            account_meta(authority, false, false),
            account_meta(signer, true, false),
        ],
        data: seq![TRANSFER_TAG] + wire_u64(amount),
    }
}

/// The seeds of the associated token account of a wallet for a mint.
pub open spec fn associated_token_address_seeds(wallet: Pubkey, mint: Pubkey) -> Seq<Seq<u8>> {
    seq![wallet@, SPL_TOKEN_PROGRAM_ID@, mint@]
}

/// The address of the associated token account of a wallet for a mint.
pub open spec fn associated_token_address(wallet: Pubkey, mint: Pubkey) -> Option<Pubkey> {
    match derive_address(
        associated_token_address_seeds(wallet, mint),
        Pubkey { bytes: ASSOCIATED_TOKEN_PROGRAM_ID },
    ) {
        Some((address, _)) => Some(address),
        None => None,
    }
}

/// The instruction that creates the associated token account of `wallet` for
/// `mint`, paid by `funder`.
pub open spec fn create_associated_token_account_instruction(
    funder: Pubkey,
    wallet: Pubkey,
    mint: Pubkey,
) -> Option<InstructionDataView> {
    match associated_token_address(wallet, mint) {
        Some(address) => Some(
            InstructionDataView {
                program_id: Pubkey { bytes: ASSOCIATED_TOKEN_PROGRAM_ID },
                accounts: seq![
                    account_meta(funder, true, true),
                    account_meta(address, false, true),
                    account_meta(wallet, false, false),
                    account_meta(mint, false, false),
                    account_meta(Pubkey { bytes: SYSTEM_PROGRAM_ID }, false, false),
                    account_meta(Pubkey { bytes: SPL_TOKEN_PROGRAM_ID }, false, false),
                    account_meta(Pubkey { bytes: RENT_SYSVAR_ID }, false, false),
                ],
                data: Seq::empty(),
            },
        ),
        None => None,
    }
}

/// Calls `spl_token::instruction::transfer` with one signer.
///
/// Trusted: it refuses every program id but the token program's; else the
/// instruction lists the source and the destination as writable, the
/// authority as read-only and not signing, the signer as a read-only signer,
/// and its data is the byte 3 and the amount as eight little-endian bytes.
#[verifier::external_body]
#[allow(deprecated)]
fn spl_token_transfer(
    token_program_id: &[u8; 32],
    source: &[u8; 32],
    destination: &[u8; 32],
    authority: &[u8; 32],
    signer: &[u8; 32],
    amount: u64,
) -> (r: Option<(Vec<RawAccountMeta>, Vec<u8>)>)
    ensures
        r is Some <==> token_program_id@ == SPL_TOKEN_PROGRAM_ID@,
        r is Some ==> (r->0).0@ == seq![
            (*source, false, true),
            (*destination, false, true),
            (*authority, false, false),
            (*signer, true, false),
        ] && (r->0).1@ == seq![TRANSFER_TAG] + wire_u64(amount),
{
    let signer_key = spl_token::solana_program::pubkey::Pubkey::new_from_array(*signer);
    let built = spl_token::instruction::transfer(
        &spl_token::solana_program::pubkey::Pubkey::new_from_array(*token_program_id),
        &spl_token::solana_program::pubkey::Pubkey::new_from_array(*source),
        &spl_token::solana_program::pubkey::Pubkey::new_from_array(*destination),
        &spl_token::solana_program::pubkey::Pubkey::new_from_array(*authority),
        &[&signer_key],
        amount,
    );
    match built {
        Ok(ix) => Some((ix.accounts.iter().map(|a| (a.pubkey.to_bytes(), a.is_signer, a.is_writable)).collect(), ix.data)),
        Err(_) => None,
    }
}

/// Calls `spl_associated_token_account::create_associated_token_account`.
///
/// Trusted: the instruction is for the associated token account program,
/// carries no data, and lists the funder as a writable signer, the account
/// at the address derived from the wallet, the token program and the mint as
/// writable, then the wallet, the mint, the system program, the token program
/// and the rent sysvar as read-only. The call panics where no address can be
/// derived, which the precondition leaves out.
#[verifier::external_body]
#[allow(deprecated)]
fn spl_create_associated_token_account(funder: &[u8; 32], wallet: &[u8; 32], mint: &[u8; 32]) -> (r:
    ([u8; 32], Vec<RawAccountMeta>, Vec<u8>))
    requires
        associated_token_address(Pubkey { bytes: *wallet }, Pubkey { bytes: *mint }) is Some,
    ensures
        r.0 == ASSOCIATED_TOKEN_PROGRAM_ID,
        r.1@ == seq![
            (*funder, true, true),
            (
                associated_token_address(Pubkey { bytes: *wallet }, Pubkey { bytes: *mint })->0.bytes,
                false,
                true,
            ),
            (*wallet, false, false),
            (*mint, false, false),
            (SYSTEM_PROGRAM_ID, false, false),
            (SPL_TOKEN_PROGRAM_ID, false, false),
            (RENT_SYSVAR_ID, false, false),
        ],
        r.2@ == Seq::<u8>::empty(),
{
    let ix = spl_associated_token_account::create_associated_token_account(
        &spl_associated_token_account::solana_program::pubkey::Pubkey::new_from_array(*funder),
        &spl_associated_token_account::solana_program::pubkey::Pubkey::new_from_array(*wallet),
        &spl_associated_token_account::solana_program::pubkey::Pubkey::new_from_array(*mint),
    );
    let accounts = ix.accounts.iter().map(|a| (a.pubkey.to_bytes(), a.is_signer, a.is_writable));
    (ix.program_id.to_bytes(), accounts.collect(), ix.data)
}

fn metas_from_raw(raw: Vec<RawAccountMeta>) -> (r: Vec<AccountMetaData>)
    ensures
        r@ == Seq::new(raw@.len(), |i: int| meta_of(raw@[i])),
{
    let mut out: Vec<AccountMetaData> = Vec::new();
    let mut i: usize = 0;
    while i < raw.len()
        invariant
            i <= raw@.len(),
            out@ == Seq::new(i as nat, |k: int| meta_of(raw@[k])),
        decreases raw@.len() - i,
    {
        let item = raw[i];
        out.push(AccountMetaData { pubkey: Pubkey { bytes: item.0 }, is_signer: item.1, is_writable: item.2 });
        assert(out@ =~= Seq::new((i + 1) as nat, |k: int| meta_of(raw@[k])));
        i += 1;
    }
    out
}

/// Builds the transfer of `amount` tokens from `source` to `destination`
/// under `authority`, signed by `signer`. Only the token program is taken.
pub fn transfer(
    token_program_id: &Pubkey,
    source: &Pubkey,
    destination: &Pubkey,
    authority: &Pubkey,
    signer: &Pubkey,
    amount: u64,
) -> (r: Result<InstructionData, ProgramError>)
    ensures
        token_program_id@ == SPL_TOKEN_PROGRAM_ID@ ==> r is Ok && r->Ok_0@ == transfer_instruction(
            *token_program_id,
            *source,
            *destination,
            *authority,
            *signer,
            amount,
        ),
        token_program_id@ != SPL_TOKEN_PROGRAM_ID@ ==> r is Err && r->Err_0
            == ProgramError::IncorrectProgramId,
{
    match spl_token_transfer(
        &token_program_id.bytes,
        &source.bytes,
        &destination.bytes,
        &authority.bytes,
        &signer.bytes,
        amount,
    ) {
        Some((raw, data)) => {
            let accounts = metas_from_raw(raw);
            assert(accounts@ =~= transfer_instruction(
                *token_program_id,
                *source,
                *destination,
                *authority,
                *signer,
                amount,
            ).accounts);
            Ok(InstructionData { program_id: *token_program_id, accounts, data })
        },
        None => Err(ProgramError::IncorrectProgramId),
    }
}

/// Builds the instruction that creates the associated token account of
/// `wallet` for `mint`, paid by `funder`, where that account has an address.
pub fn create_associated_token_account(funder: &Pubkey, wallet: &Pubkey, mint: &Pubkey) -> (r:
    Option<InstructionData>)
    ensures
        match r {
            Some(instruction) => create_associated_token_account_instruction(
                *funder,
                *wallet,
                *mint,
            ) == Some(instruction@),
            None => create_associated_token_account_instruction(*funder, *wallet, *mint) is None,
        },
{
    let token_program = SPL_TOKEN_PROGRAM_ID;
    let program = Pubkey { bytes: ASSOCIATED_TOKEN_PROGRAM_ID };
    let seeds = [wallet.as_ref(), token_program.as_slice(), mint.as_ref()];
    assert(crate::pubkey::seeds_of(seeds) =~= associated_token_address_seeds(*wallet, *mint));
    match Pubkey::try_find_address(&seeds, &program) {
        None => None,
        Some(_) => {
            assert(Pubkey { bytes: wallet.bytes } == *wallet);
            assert(Pubkey { bytes: mint.bytes } == *mint);
            let (program_id, raw, data) = spl_create_associated_token_account(
                &funder.bytes,
                &wallet.bytes,
                &mint.bytes,
            );
            let accounts = metas_from_raw(raw);
            assert(accounts@ =~= create_associated_token_account_instruction(
                *funder,
                *wallet,
                *mint,
            )->0.accounts);
            Some(InstructionData { program_id: Pubkey { bytes: program_id }, accounts, data })
        },
    }
}

} // verus!
