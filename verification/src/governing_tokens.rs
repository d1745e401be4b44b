//! Deposits and withdrawals of governing tokens: the voting weight of an
//! owner is what the owner holds in the realm's vault.

use vstd::prelude::*;

use crate::account::AccountInfo;
use crate::error::{GovernanceError, ProgramError};
use crate::proposal_transaction::{InstructionData, InstructionDataView};
use crate::pubkey::{derive_address, Pubkey};
use crate::realm::{
    get_realm_address_seeds, get_realm_data,
    governing_token_holding_address, realm_address_seeds, realm_data, RealmView,
};
use crate::token::{
    get_spl_token_owner, token_account_owner, transfer, transfer_instruction,
    SPL_TOKEN_PROGRAM_ID,
};
use crate::token_owner_record::{
    lemma_token_owner_record_round_trip, wire_token_owner_record,
    deposit_governing_tokens, deposit_result, get_token_owner_record_data,
    token_owner_record_address, token_owner_record_data, derive_token_owner_record_address,
    withdraw_result, TokenOwnerRecord,
};

verus! {

/// What the realm says to a deposit of the mint into the holding account:
/// deposits of the mint must be open, the mint must be the realm's community
/// or council mint, and the holding account must be the one derived for the
/// realm and the mint.
pub open spec fn realm_accepts_deposit(
    realm: RealmView,
    program_id: Pubkey,
    realm_key: Pubkey,
    governing_token_mint: Pubkey,
    governing_token_holding: Pubkey,
) -> Result<(), ProgramError> {
    if realm.config.use_community_voter_weight_addin && realm.community_mint
        == governing_token_mint {
        Err(ProgramError::Governance(GovernanceError::GoverningTokenDepositsNotAllowed))
    } else if !(realm.community_mint == governing_token_mint || realm.config.council_mint == Some(
        governing_token_mint,
    )) {
        Err(ProgramError::Governance(GovernanceError::InvalidGoverningTokenMint))
    } else if governing_token_holding_address(program_id, realm_key, governing_token_mint) != Some(
        governing_token_holding,
    ) {
        Err(ProgramError::Governance(GovernanceError::InvalidGoverningTokenHoldingAccount))
    } else {
        Ok(())
    }
}

/// The record that the account holds already, if it holds one.
pub open spec fn existing_record(program_id: Pubkey, info: &AccountInfo) -> Result<
    Option<TokenOwnerRecord>,
    ProgramError,
> {
    if info.data@.len() == 0 {
        Ok(None)
    } else {
        match token_owner_record_data(program_id, info) {
            Ok(record) => Ok(Some(record)),
            Err(e) => Err(e),
        }
    }
}

/// The ledger entry after the deposit: the account must be the one derived
/// for the realm, the mint and the owner of the tokens; a record is created
/// in it if it holds none, which the owner must have signed for.
pub open spec fn ledger_update(
    program_id: Pubkey,
    realm_key: Pubkey,
    governing_token_mint: Pubkey,
    governing_token_owner: Pubkey,
    owner_is_signer: bool,
    token_owner_record_info: &AccountInfo,
    amount: u64,
) -> Result<TokenOwnerRecord, ProgramError> {
    if token_owner_record_address(program_id, realm_key, governing_token_mint, governing_token_owner)
        != Some(token_owner_record_info.key) {
        Err(ProgramError::Governance(GovernanceError::InvalidTokenOwnerRecordAccountAddress))
    } else {
        match existing_record(program_id, token_owner_record_info) {
            Err(e) => Err(e),
            Ok(existing) => deposit_result(
                existing,
                realm_key,
                governing_token_mint,
                governing_token_owner,
                owner_is_signer,
                amount,
            ),
        }
    }
}

/// Books the deposit on the ledger entry of the owner of the tokens.
pub fn update_ledger(
    program_id: &Pubkey,
    realm_key: &Pubkey,
    governing_token_mint: &Pubkey,
    governing_token_owner: &Pubkey,
    owner_is_signer: bool,
    token_owner_record_info: &AccountInfo,
    amount: u64,
) -> (r: Result<TokenOwnerRecord, ProgramError>)
    ensures
        r == ledger_update(
            *program_id,
            *realm_key,
            *governing_token_mint,
            *governing_token_owner,
            owner_is_signer,
            token_owner_record_info,
            amount,
        ),
{
    match derive_token_owner_record_address(
        program_id,
        realm_key,
        governing_token_mint,
        governing_token_owner,
    ) {
        Some(address) => {
            if address != token_owner_record_info.key {
                return Err(
                    ProgramError::Governance(
                        GovernanceError::InvalidTokenOwnerRecordAccountAddress,
                    ),
                );
            }
        },
        None => {
            return Err(
                ProgramError::Governance(GovernanceError::InvalidTokenOwnerRecordAccountAddress),
            );
        },
    }
    let existing = if token_owner_record_info.data_is_empty() {
        None
    } else {
        Some(get_token_owner_record_data(program_id, token_owner_record_info)?)
    };
    deposit_governing_tokens(
        existing,
        realm_key,
        governing_token_mint,
        governing_token_owner,
        owner_is_signer,
        amount,
    )
}


/// What is to be done for a deposit of governing tokens, in this order.
#[derive(Clone, Debug, PartialEq, Eq)]
pub struct DepositPlan {
    /// Move the tokens from the owner's account to the holding vault, under
    /// the owner's signature.
    pub transfer: InstructionData,
    /// Then write the owner's record, which counts the deposit.
    pub token_owner_record: TokenOwnerRecord,
}

/// A deposit plan as a value.
pub struct DepositPlanView {
    pub transfer: InstructionDataView,
    pub token_owner_record: TokenOwnerRecord,
}

impl View for DepositPlan {
    type V = DepositPlanView;

    open spec fn view(&self) -> DepositPlanView {
        DepositPlanView { transfer: self.transfer@, token_owner_record: self.token_owner_record }
    }
}

/// What a deposit of governing tokens comes to. The tokens are those of the
/// owner of the source account, whoever signs for their transfer, and it is
/// the owner's record that counts them; the owner signed if the one who
/// signs the transfer is the owner.
pub open spec fn deposit_governing_tokens_result(
    program_id: Pubkey,
    realm_info: &AccountInfo,
    governing_token_holding: Pubkey,
    governing_token_source_info: &AccountInfo,
    governing_token_authority_info: &AccountInfo,
    token_owner_record_info: &AccountInfo,
    governing_token_mint: Pubkey,
    token_program: Pubkey,
    amount: u64,
) -> Result<DepositPlanView, ProgramError> {
    let owner = token_account_owner(governing_token_source_info);
    let ledger = ledger_update(
        program_id,
        realm_info.key,
        governing_token_mint,
        owner->Ok_0,
        governing_token_authority_info.is_signer && governing_token_authority_info.key
            == owner->Ok_0,
        token_owner_record_info,
        amount,
    );
    if realm_data(program_id, realm_info) is Err {
        Err(realm_data(program_id, realm_info)->Err_0)
    } else if realm_accepts_deposit(
        realm_data(program_id, realm_info)->Ok_0,
        program_id,
        realm_info.key,
        governing_token_mint,
        governing_token_holding,
    ) is Err {
        Err(
            realm_accepts_deposit(
                realm_data(program_id, realm_info)->Ok_0,
                program_id,
                realm_info.key,
                governing_token_mint,
                governing_token_holding,
            )->Err_0,
        )
    } else if owner is Err {
        Err(owner->Err_0)
    } else if token_program@ != SPL_TOKEN_PROGRAM_ID@ {
        Err(ProgramError::IncorrectProgramId)
    } else if ledger is Err {
        Err(ledger->Err_0)
    } else {
        Ok(
            DepositPlanView {
                transfer: transfer_instruction(
                    token_program,
                    governing_token_source_info.key,
                    governing_token_holding,
                    governing_token_authority_info.key,
                    governing_token_authority_info.key,
                    amount,
                ),
                token_owner_record: ledger->Ok_0,
            },
        )
    }
}

/// Processes DepositGoverningTokens instruction: plans the transfer into the
/// vault and the entry on the ledger. An error means that nothing is to be
/// done.
#[verifier::rlimit(50)]
pub fn process_deposit_governing_tokens(
    program_id: &Pubkey,
    realm_info: &AccountInfo,
    governing_token_holding: &Pubkey,
    governing_token_source_info: &AccountInfo,
    governing_token_authority_info: &AccountInfo,
    token_owner_record_info: &AccountInfo,
    governing_token_mint: &Pubkey,
    token_program: &Pubkey,
    amount: u64,
) -> (r: Result<DepositPlan, ProgramError>)
    ensures
        match r {
            Ok(plan) => deposit_governing_tokens_result(
                *program_id,
                realm_info,
                *governing_token_holding,
                governing_token_source_info,
                governing_token_authority_info,
                token_owner_record_info,
                *governing_token_mint,
                *token_program,
                amount,
            ) == Ok::<DepositPlanView, ProgramError>(plan@),
            Err(e) => deposit_governing_tokens_result(
                *program_id,
                realm_info,
                *governing_token_holding,
                governing_token_source_info,
                governing_token_authority_info,
                token_owner_record_info,
                *governing_token_mint,
                *token_program,
                amount,
            ) == Err::<DepositPlanView, ProgramError>(e),
        },
{
    let realm_data = get_realm_data(program_id, realm_info)?;
    realm_data.asset_governing_tokens_deposits_allowed(governing_token_mint)?;
    realm_data.assert_is_valid_governing_token_mint_and_holding(
        program_id,
        &realm_info.key,
        governing_token_mint,
        governing_token_holding,
    )?;
    let governing_token_owner = get_spl_token_owner(governing_token_source_info)?;
    let transfer = transfer(
        token_program,
        &governing_token_source_info.key,
        governing_token_holding,
        &governing_token_authority_info.key,
        &governing_token_authority_info.key,
        amount,
    )?;
    let owner_is_signer = governing_token_authority_info.is_signer
        && governing_token_authority_info.key == governing_token_owner;
    let token_owner_record = update_ledger(
        program_id,
        &realm_info.key,
        governing_token_mint,
        &governing_token_owner,
        owner_is_signer,
        token_owner_record_info,
        amount,
    )?;
    Ok(DepositPlan { transfer, token_owner_record })
}

/// Depositing is idempotent in creating: a first deposit into an account
/// that holds nothing writes one record with the amount deposited; a second
/// deposit of the same owner's tokens, made when the account holds what the
/// first one wrote, goes to the same account and makes the amount the sum of
/// the two. There is never a second record.
#[verifier::rlimit(50)]
pub proof fn lemma_deposit_is_idempotent_in_creating(
    program_id: Pubkey,
    realm_info: &AccountInfo,
    governing_token_holding: Pubkey,
    governing_token_source_info: &AccountInfo,
    governing_token_authority_info: &AccountInfo,
    empty_record_info: &AccountInfo,
    written_record_info: &AccountInfo,
    governing_token_mint: Pubkey,
    token_program: Pubkey,
    amount: u64,
    amount2: u64,
)
    requires
        amount + amount2 <= u64::MAX,
        empty_record_info.data@.len() == 0,
        deposit_governing_tokens_result(
            program_id,
            realm_info,
            governing_token_holding,
            governing_token_source_info,
            governing_token_authority_info,
            empty_record_info,
            governing_token_mint,
            token_program,
            amount,
        ) is Ok,
        written_record_info.key == empty_record_info.key,
        written_record_info.owner == program_id,
        written_record_info.data@ == wire_token_owner_record(
            deposit_governing_tokens_result(
                program_id,
                realm_info,
                governing_token_holding,
                governing_token_source_info,
                governing_token_authority_info,
                empty_record_info,
                governing_token_mint,
                token_program,
                amount,
            )->Ok_0.token_owner_record,
        ),
    ensures
        ({
            let first = deposit_governing_tokens_result(
                program_id,
                realm_info,
                governing_token_holding,
                governing_token_source_info,
                governing_token_authority_info,
                empty_record_info,
                governing_token_mint,
                token_program,
                amount,
            );
            let second = deposit_governing_tokens_result(
                program_id,
                realm_info,
                governing_token_holding,
                governing_token_source_info,
                governing_token_authority_info,
                written_record_info,
                governing_token_mint,
                token_program,
                amount2,
            );
            &&& first->Ok_0.token_owner_record.governing_token_deposit_amount == amount
            &&& second is Ok
            &&& second->Ok_0.token_owner_record.governing_token_deposit_amount == amount + amount2
            &&& second->Ok_0.token_owner_record.governing_token_owner
                == first->Ok_0.token_owner_record.governing_token_owner
            &&& token_owner_record_address(
                program_id,
                realm_info.key,
                governing_token_mint,
                second->Ok_0.token_owner_record.governing_token_owner,
            ) == Some(empty_record_info.key)
        }),
{
    let first = deposit_governing_tokens_result(
        program_id,
        realm_info,
        governing_token_holding,
        governing_token_source_info,
        governing_token_authority_info,
        empty_record_info,
        governing_token_mint,
        token_program,
        amount,
    )->Ok_0.token_owner_record;
    let empty = Seq::<u8>::empty();
    lemma_token_owner_record_round_trip(first, empty);
    assert(wire_token_owner_record(first) + empty =~= wire_token_owner_record(first));
    crate::enums::lemma_account_type_round_trip(first.account_type, empty);
}

/// The credential that signs for a realm, which is the authority of its
/// vaults: the seeds of the realm's address and the bump seed found with
/// them.
#[derive(Clone, Debug, PartialEq, Eq)]
pub struct RealmSigner {
    pub name: String,
    pub bump: u8,
}

/// What is to be done for a withdrawal of governing tokens, in this order.
#[derive(Clone, Debug, PartialEq, Eq)]
pub struct WithdrawPlan {
    /// Move the tokens from the holding vault to the owner's account,
    /// signed for the realm.
    pub transfer: InstructionData,
    /// The credential that signs the transfer.
    pub signer: RealmSigner,
    /// Then write the owner's record, which no longer counts the tokens.
    pub token_owner_record: TokenOwnerRecord,
}

/// A withdrawal plan as a value.
pub struct WithdrawPlanView {
    pub transfer: InstructionDataView,
    pub signer_name: Seq<char>,
    pub signer_bump: u8,
    pub token_owner_record: TokenOwnerRecord,
}

impl View for WithdrawPlan {
    type V = WithdrawPlanView;

    open spec fn view(&self) -> WithdrawPlanView {
        WithdrawPlanView {
            transfer: self.transfer@,
            signer_name: self.signer.name@,
            signer_bump: self.signer.bump,
            token_owner_record: self.token_owner_record,
        }
    }
}

/// The mint is one of the realm's, and the holding account is the one
/// derived for it.
pub open spec fn realm_holds_mint(
    realm: RealmView,
    program_id: Pubkey,
    realm_key: Pubkey,
    governing_token_mint: Pubkey,
    governing_token_holding: Pubkey,
) -> Result<(), ProgramError> {
    if !(realm.community_mint == governing_token_mint || realm.config.council_mint == Some(
        governing_token_mint,
    )) {
        Err(ProgramError::Governance(GovernanceError::InvalidGoverningTokenMint))
    } else if governing_token_holding_address(program_id, realm_key, governing_token_mint) != Some(
        governing_token_holding,
    ) {
        Err(ProgramError::Governance(GovernanceError::InvalidGoverningTokenHoldingAccount))
    } else {
        Ok(())
    }
}

/// The owner's record for a withdrawal: the account must be the one derived
/// for the realm, the mint and the owner, and hold a record.
pub open spec fn record_to_withdraw_from(
    program_id: Pubkey,
    realm_key: Pubkey,
    governing_token_mint: Pubkey,
    governing_token_owner: Pubkey,
    token_owner_record_info: &AccountInfo,
) -> Result<TokenOwnerRecord, ProgramError> {
    if token_owner_record_address(program_id, realm_key, governing_token_mint, governing_token_owner)
        != Some(token_owner_record_info.key) {
        Err(ProgramError::Governance(GovernanceError::InvalidTokenOwnerRecordAccountAddress))
    } else {
        token_owner_record_data(program_id, token_owner_record_info)
    }
}

/// What a withdrawal of governing tokens comes to. The owner must have
/// signed, nothing leaves while votes are outstanding, and no more leaves
/// than was deposited.
pub open spec fn withdraw_governing_tokens_result(
    program_id: Pubkey,
    realm_info: &AccountInfo,
    governing_token_holding: Pubkey,
    governing_token_destination: Pubkey,
    governing_token_owner_info: &AccountInfo,
    token_owner_record_info: &AccountInfo,
    governing_token_mint: Pubkey,
    token_program: Pubkey,
    amount: u64,
) -> Result<WithdrawPlanView, ProgramError> {
    let realm = realm_data(program_id, realm_info);
    let record = record_to_withdraw_from(
        program_id,
        realm_info.key,
        governing_token_mint,
        governing_token_owner_info.key,
        token_owner_record_info,
    );
    let authority = derive_address(realm_address_seeds(realm->Ok_0.name), program_id);
    if !governing_token_owner_info.is_signer {
        Err(ProgramError::Governance(GovernanceError::GoverningTokenOwnerMustSign))
    } else if realm is Err {
        Err(realm->Err_0)
    } else if realm_holds_mint(
        realm->Ok_0,
        program_id,
        realm_info.key,
        governing_token_mint,
        governing_token_holding,
    ) is Err {
        Err(
            realm_holds_mint(
                realm->Ok_0,
                program_id,
                realm_info.key,
                governing_token_mint,
                governing_token_holding,
            )->Err_0,
        )
    } else if record is Err {
        Err(record->Err_0)
    } else if withdraw_result(record->Ok_0, amount) is Err {
        Err(withdraw_result(record->Ok_0, amount)->Err_0)
    } else if authority is None || (authority->0).0 != realm_info.key {
        Err(ProgramError::InvalidSeeds)
    } else if token_program@ != SPL_TOKEN_PROGRAM_ID@ {
        Err(ProgramError::IncorrectProgramId)
    } else {
        Ok(
            WithdrawPlanView {
                transfer: transfer_instruction(
                    token_program,
                    governing_token_holding,
                    governing_token_destination,
                    realm_info.key,
                    realm_info.key,
                    amount,
                ),
                signer_name: realm->Ok_0.name,
                signer_bump: (authority->0).1,
                token_owner_record: withdraw_result(record->Ok_0, amount)->Ok_0,
            },
        )
    }
}

/// Processes WithdrawGoverningTokens instruction: plans the transfer out of
/// the vault and the entry on the ledger. An error means that nothing is to
/// be done.
#[verifier::rlimit(50)]
pub fn process_withdraw_governing_tokens(
    program_id: &Pubkey,
    realm_info: &AccountInfo,
    governing_token_holding: &Pubkey,
    governing_token_destination: &Pubkey,
    governing_token_owner_info: &AccountInfo,
    token_owner_record_info: &AccountInfo,
    governing_token_mint: &Pubkey,
    token_program: &Pubkey,
    amount: u64,
) -> (r: Result<WithdrawPlan, ProgramError>)
    ensures
        match r {
            Ok(plan) => withdraw_governing_tokens_result(
                *program_id,
                realm_info,
                *governing_token_holding,
                *governing_token_destination,
                governing_token_owner_info,
                token_owner_record_info,
                *governing_token_mint,
                *token_program,
                amount,
            ) == Ok::<WithdrawPlanView, ProgramError>(plan@),
            Err(e) => withdraw_governing_tokens_result(
                *program_id,
                realm_info,
                *governing_token_holding,
                *governing_token_destination,
                governing_token_owner_info,
                token_owner_record_info,
                *governing_token_mint,
                *token_program,
                amount,
            ) == Err::<WithdrawPlanView, ProgramError>(e),
        },
{
    if !governing_token_owner_info.is_signer {
        return Err(ProgramError::Governance(GovernanceError::GoverningTokenOwnerMustSign));
    }
    let realm_data = get_realm_data(program_id, realm_info)?;
    realm_data.assert_is_valid_governing_token_mint_and_holding(
        program_id,
        &realm_info.key,
        governing_token_mint,
        governing_token_holding,
    )?;
    match derive_token_owner_record_address(
        program_id,
        &realm_info.key,
        governing_token_mint,
        &governing_token_owner_info.key,
    ) {
        Some(address) => {
            if address != token_owner_record_info.key {
                return Err(
                    ProgramError::Governance(
                        GovernanceError::InvalidTokenOwnerRecordAccountAddress,
                    ),
                );
            }
        },
        None => {
            return Err(
                ProgramError::Governance(GovernanceError::InvalidTokenOwnerRecordAccountAddress),
            );
        },
    }
    let mut token_owner_record = get_token_owner_record_data(program_id, token_owner_record_info)?;
    token_owner_record.withdraw_governing_tokens(amount)?;
    let seeds = get_realm_address_seeds(realm_data.name.as_str());
    let bump = match Pubkey::try_find_address(&seeds, program_id) {
        Some((address, bump)) => {
            if address != realm_info.key {
                return Err(ProgramError::InvalidSeeds);
            }
            bump
        },
        None => {
            return Err(ProgramError::InvalidSeeds);
        },
    };
    let transfer = transfer(
        token_program,
        governing_token_holding,
        governing_token_destination,
        &realm_info.key,
        &realm_info.key,
        amount,
    )?;
    Ok(
        WithdrawPlan {
            transfer,
            signer: RealmSigner { name: realm_data.name, bump },
            token_owner_record,
        },
    )
}

/// The withdraw guard: while votes of the owner are outstanding, whatever
/// their number, a withdrawal fails and plans nothing.
pub proof fn lemma_withdraw_needs_relinquished_votes(
    program_id: Pubkey,
    realm_info: &AccountInfo,
    governing_token_holding: Pubkey,
    governing_token_destination: Pubkey,
    governing_token_owner_info: &AccountInfo,
    token_owner_record_info: &AccountInfo,
    governing_token_mint: Pubkey,
    token_program: Pubkey,
    amount: u64,
)
    requires
        token_owner_record_data(program_id, token_owner_record_info) is Ok,
        token_owner_record_data(
            program_id,
            token_owner_record_info,
        )->Ok_0.unrelinquished_votes_count > 0,
    ensures
        withdraw_governing_tokens_result(
            program_id,
            realm_info,
            governing_token_holding,
            governing_token_destination,
            governing_token_owner_info,
            token_owner_record_info,
            governing_token_mint,
            token_program,
            amount,
        ) is Err,
{
}

} // verus!
