//! The capital exchange: a verified depositor hands capital tokens to the
//! realm's holding vault, receives as many of the tokens that the governance
//! holds in custody, and gains as much voting weight.
//!
//! The exchange rate is one to one: no oracle and no pricing curve is
//! consulted. The library decides and plans; whoever runs the instruction
//! performs the planned steps in order and lets the whole instruction fail
//! with the first step that fails.

use vstd::prelude::*;

use crate::account::AccountInfo;
use crate::enums::GovernanceAccountType;
use crate::error::{GovernanceError, ProgramError};
use crate::governance::{get_mint_governance_address_seeds, governance_seeds, MINT_GOVERNANCE_SEED};
use crate::governing_tokens::{
    existing_record, ledger_update, realm_accepts_deposit, update_ledger,
};
use crate::proposal_transaction::{InstructionData, InstructionDataView};
use crate::pubkey::{derive_address, Pubkey};
use crate::realm::{get_realm_data, governing_token_holding_address, realm_data};
use crate::token::{
    assert_token_holding, associated_token_address, create_associated_token_account,
    create_associated_token_account_instruction, get_spl_token_owner, token_account_owner,
    token_holding_check, transfer, transfer_instruction, SPL_TOKEN_PROGRAM_ID,
};
use crate::token_owner_record::{deposit_result, TokenOwnerRecord};
use crate::verification::{assert_identity_verification, identity_is_verified};

verus! {

/// Number of accounts that the instruction reads.
pub const DEPOSIT_CAPITAL_ACCOUNTS: usize = 15;

/// Number of accounts that the instruction reads before it looks at the
/// depositor's identity: all but the depositor's token owner record.
pub const IDENTITY_CHECK_ACCOUNTS: usize = 14;

/// Place of the realm in the accounts of the instruction.
pub const REALM: usize = 0;

/// Place of the governance that holds the reward tokens in custody.
pub const LP_GOVERNANCE: usize = 1;

/// Place of the depositor, who owns the capital tokens.
pub const CAPITAL_TOKEN_AUTHORITY: usize = 2;

/// Place of the depositor's account of capital tokens.
pub const CAPITAL_TOKEN_ACCOUNT: usize = 3;

/// Place of the realm's holding vault of capital tokens.
pub const CAPITAL_TOKEN_HOLDING_ACCOUNT: usize = 4;

/// Place of the depositor's account of reward tokens.
pub const LP_TOKEN_ACCOUNT: usize = 5;

/// Place of the governance's vault of reward tokens.
pub const LP_TOKEN_HOLDING_ACCOUNT: usize = 6;

/// Place of the mint of the reward tokens.
pub const LP_TOKEN_MINT: usize = 7;

/// Place of the governing token mint that the governance governs.
pub const DELEGATE_TOKEN_MINT: usize = 8;

/// Place of the depositor's identity record.
pub const IDENTITY_VERIFICATION_RECORD: usize = 9;

/// Place of the identity verification program.
pub const IDENTITY_VERIFICATION_PROGRAM: usize = 10;

/// Place of the token program.
pub const TOKEN_PROGRAM: usize = 11;

/// Place of the system program.
pub const SYSTEM_PROGRAM: usize = 12;

/// Place of the rent sysvar.
pub const RENT_PROGRAM: usize = 13;

/// Place of the depositor's token owner record.
pub const TOKEN_OWNER_RECORD: usize = 14;

/// The credential that signs for a mint governance: the seeds of its
/// address and the bump seed found with them.
#[derive(Clone, Copy, Debug, PartialEq, Eq)]
pub struct MintGovernanceSigner {
    pub realm: Pubkey,
    pub governed_mint: Pubkey,
    pub bump: u8,
}

impl MintGovernanceSigner {
    /// The seeds to sign with: `mint-governance`, the realm, the mint, the
    /// bump seed.
    pub open spec fn seeds(self) -> Seq<Seq<u8>> {
        seq![MINT_GOVERNANCE_SEED@, self.realm@, self.governed_mint@, seq![self.bump]]
    }

    /// The seeds to sign with, in order.
    pub fn signer_seeds(&self) -> (r: Vec<Vec<u8>>)
        ensures
            r@.len() == 4,
            forall|i: int| 0 <= i < 4 ==> (#[trigger] r@[i])@ == self.seeds()[i],
    {
        let base = get_mint_governance_address_seeds(&self.realm, &self.governed_mint);
        let mut out: Vec<Vec<u8>> = Vec::new();
        out.push(vstd::slice::slice_to_vec(base[0]));
        out.push(vstd::slice::slice_to_vec(base[1]));
        out.push(vstd::slice::slice_to_vec(base[2]));
        let mut bump: Vec<u8> = Vec::new();
        bump.push(self.bump);
        assert(bump@ =~= seq![self.bump]);
        out.push(bump);
        proof {
            let seeds = crate::pubkey::seeds_of(base);
            assert(seeds[0] == base@[0]@);
            assert(seeds[1] == base@[1]@);
            assert(seeds[2] == base@[2]@);
        }
        out
    }
}

/// What is to be done for a deposit of capital, in this order.
#[derive(Clone, Debug, PartialEq, Eq)]
pub struct DepositCapitalPlan {
    /// First, where the depositor has no account for the reward tokens yet:
    /// create it, paid by the depositor.
    pub create_destination_account: Option<InstructionData>,
    /// Then move the capital from the depositor to the holding vault, under
    /// the depositor's own signature.
    pub capital_transfer: InstructionData,
    /// Then move as many reward tokens from the governance's vault to the
    /// depositor, signed for the governance.
    pub reward_transfer: InstructionData,
    /// The credential that signs the reward transfer.
    pub reward_signer: MintGovernanceSigner,
    /// Last, write the depositor's record, which counts the deposit.
    pub token_owner_record: TokenOwnerRecord,
}

/// A plan as a value.
pub struct DepositCapitalPlanView {
    pub create_destination_account: Option<InstructionDataView>,
    pub capital_transfer: InstructionDataView,
    pub reward_transfer: InstructionDataView,
    pub reward_signer: MintGovernanceSigner,
    pub token_owner_record: TokenOwnerRecord,
}

impl View for DepositCapitalPlan {
    type V = DepositCapitalPlanView;

    open spec fn view(&self) -> DepositCapitalPlanView {
        DepositCapitalPlanView {
            create_destination_account: match self.create_destination_account {
                Some(instruction) => Some(instruction@),
                None => None,
            },
            capital_transfer: self.capital_transfer@,
            reward_transfer: self.reward_transfer@,
            reward_signer: self.reward_signer,
            token_owner_record: self.token_owner_record,
        }
    }
}

/// What the check of the depositor's account for the reward comes to. Where
/// the account does not exist yet, it is the depositor's associated account
/// of the reward mint, which is the one that will be created; where it
/// exists, it holds tokens of the reward mint for the depositor.
pub open spec fn destination_check(destination: &AccountInfo, depositor: Pubkey, mint: Pubkey) -> Result<
    (),
    ProgramError,
> {
    if destination.data@.len() == 0 {
        if associated_token_address(depositor, mint) == Some(destination.key) {
            Ok(())
        } else {
            Err(ProgramError::InvalidSeeds)
        }
    } else {
        token_holding_check(destination, mint, depositor)
    }
}

/// What a deposit of capital comes to: an error and nothing to be done, or
/// the whole plan. The accounts up to the rent sysvar must be there; then
/// the depositor must be verified under the realm; and only a verified
/// depositor's record is asked for and the exchange planned.
pub open spec fn deposit_capital_result(
    program_id: Pubkey,
    accounts: Seq<AccountInfo>,
    amount: u64,
) -> Result<DepositCapitalPlanView, ProgramError> {
    if accounts.len() < IDENTITY_CHECK_ACCOUNTS {
        Err(ProgramError::NotEnoughAccountKeys)
    } else if !identity_is_verified(
        &accounts[IDENTITY_VERIFICATION_RECORD as int],
        accounts[CAPITAL_TOKEN_AUTHORITY as int].key,
        accounts[REALM as int].key,
        accounts[IDENTITY_VERIFICATION_PROGRAM as int].key,
    ) {
        Err(ProgramError::Governance(GovernanceError::UserIdentityNotKnown))
    } else if accounts.len() < DEPOSIT_CAPITAL_ACCOUNTS {
        Err(ProgramError::NotEnoughAccountKeys)
    } else {
        verified_deposit_result(program_id, accounts, amount)
    }
}

/// What the deposit of a verified depositor comes to, with all accounts
/// there. The checks are made in this order: the realm takes deposits of the
/// mint into the holding vault; the capital is the depositor's own and the
/// depositor signed; the depositor's account for the reward is the one to be
/// created or holds the reward mint for the depositor; the token program is
/// the token program; the governance is the one derived for the realm and
/// the mint; the reward vault holds the reward mint for that governance; the
/// depositor's record is at its derived address and takes the amount.
pub open spec fn verified_deposit_result(
    program_id: Pubkey,
    accounts: Seq<AccountInfo>,
    amount: u64,
) -> Result<DepositCapitalPlanView, ProgramError> {
    let realm = accounts[REALM as int];
    let depositor = accounts[CAPITAL_TOKEN_AUTHORITY as int];
    let mint = accounts[DELEGATE_TOKEN_MINT as int].key;
    let reward_mint = accounts[LP_TOKEN_MINT as int].key;
    let token_program = accounts[TOKEN_PROGRAM as int].key;
    let governance = accounts[LP_GOVERNANCE as int].key;
    let authority = derive_address(
        governance_seeds(GovernanceAccountType::MintGovernance, realm.key, mint),
        program_id,
    );
    let source_owner = token_account_owner(&accounts[CAPITAL_TOKEN_ACCOUNT as int]);
    let destination = destination_check(
        &accounts[LP_TOKEN_ACCOUNT as int],
        depositor.key,
        reward_mint,
    );
    let reward_vault = token_holding_check(
        &accounts[LP_TOKEN_HOLDING_ACCOUNT as int],
        reward_mint,
        governance,
    );
    let ledger = ledger_update(
        program_id,
        realm.key,
        mint,
        depositor.key,
        depositor.is_signer,
        &accounts[TOKEN_OWNER_RECORD as int],
        amount,
    );
    if realm_data(program_id, &realm) is Err {
        Err(realm_data(program_id, &realm)->Err_0)
    } else if realm_accepts_deposit(
        realm_data(program_id, &realm)->Ok_0,
        program_id,
        realm.key,
        mint,
        accounts[CAPITAL_TOKEN_HOLDING_ACCOUNT as int].key,
    ) is Err {
        Err(
            realm_accepts_deposit(
                realm_data(program_id, &realm)->Ok_0,
                program_id,
                realm.key,
                mint,
                accounts[CAPITAL_TOKEN_HOLDING_ACCOUNT as int].key,
            )->Err_0,
        )
    } else if source_owner is Err {
        Err(source_owner->Err_0)
    } else if source_owner->Ok_0 != depositor.key || !depositor.is_signer {
        Err(ProgramError::Governance(GovernanceError::GoverningTokenOwnerMustSign))
    } else if destination is Err {
        Err(destination->Err_0)
    } else if token_program@ != SPL_TOKEN_PROGRAM_ID@ {
        Err(ProgramError::IncorrectProgramId)
    } else if authority is None || (authority->0).0 != governance {
        Err(ProgramError::Governance(GovernanceError::InvalidGovernanceAccountAddress))
    } else if reward_vault is Err {
        Err(reward_vault->Err_0)
    } else if ledger is Err {
        Err(ledger->Err_0)
    } else {
        Ok(
            DepositCapitalPlanView {
                create_destination_account: if accounts[LP_TOKEN_ACCOUNT as int].data@.len()
                    == 0 {
                    create_associated_token_account_instruction(
                        depositor.key,
                        depositor.key,
                        reward_mint,
                    )
                } else {
                    None
                },
                capital_transfer: transfer_instruction(
                    token_program,
                    accounts[CAPITAL_TOKEN_ACCOUNT as int].key,
                    accounts[CAPITAL_TOKEN_HOLDING_ACCOUNT as int].key,
                    depositor.key,
                    depositor.key,
                    amount,
                ),
                reward_transfer: transfer_instruction(
                    token_program,
                    accounts[LP_TOKEN_HOLDING_ACCOUNT as int].key,
                    accounts[LP_TOKEN_ACCOUNT as int].key,
                    governance,
                    governance,
                    amount,
                ),
                reward_signer: MintGovernanceSigner {
                    realm: realm.key,
                    governed_mint: mint,
                    bump: (authority->0).1,
                },
                token_owner_record: ledger->Ok_0,
            },
        )
    }
}

/// An executable result agrees with a specified one.
pub open spec fn plan_result(
    r: Result<DepositCapitalPlan, ProgramError>,
    expected: Result<DepositCapitalPlanView, ProgramError>,
) -> bool {
    match r {
        Ok(plan) => expected == Ok::<DepositCapitalPlanView, ProgramError>(plan@),
        Err(e) => expected == Err::<DepositCapitalPlanView, ProgramError>(e),
    }
}

/// Processes DepositCapital instruction: checks the depositor's identity and
/// every account that claims a role, and plans the exchange. The identity is
/// looked at first, before the depositor's record is asked for. The depositor
/// is the one who signs for the capital, and the capital must be the
/// depositor's own; the reward must lie in a vault of the governance and go
/// to an account of the depositor. An error means that nothing is to be
/// done: no token moves and no record changes.
#[verifier::rlimit(50)]
pub fn process_deposit_capital(program_id: &Pubkey, accounts: &[AccountInfo], amount: u64) -> (r:
    Result<DepositCapitalPlan, ProgramError>)
    ensures
        plan_result(r, deposit_capital_result(*program_id, accounts@, amount)),
{
    if accounts.len() < IDENTITY_CHECK_ACCOUNTS {
        return Err(ProgramError::NotEnoughAccountKeys);
    }
    let realm = &accounts[REALM];
    let lp_governance = &accounts[LP_GOVERNANCE];
    let capital_token_authority = &accounts[CAPITAL_TOKEN_AUTHORITY];
    let capital_token_account = &accounts[CAPITAL_TOKEN_ACCOUNT];
    let capital_token_holding_account = &accounts[CAPITAL_TOKEN_HOLDING_ACCOUNT];
    let lp_token_account = &accounts[LP_TOKEN_ACCOUNT];
    let lp_token_holding_account = &accounts[LP_TOKEN_HOLDING_ACCOUNT];
    let lp_token_mint = &accounts[LP_TOKEN_MINT];
    let delegate_token_mint = &accounts[DELEGATE_TOKEN_MINT];
    let identity_verification_record = &accounts[IDENTITY_VERIFICATION_RECORD];
    let identity_verification_program = &accounts[IDENTITY_VERIFICATION_PROGRAM];
    let token_program = &accounts[TOKEN_PROGRAM];

    // assert user's identity has been verified
    match assert_identity_verification(
        identity_verification_record,
        capital_token_authority,
        realm,
        identity_verification_program,
    ) {
        Ok(_) => {},
        Err(e) => {
            return Err(e);
        },
    }

    // the record of a verified depositor
    if accounts.len() < DEPOSIT_CAPITAL_ACCOUNTS {
        return Err(ProgramError::NotEnoughAccountKeys);
    }
    let token_owner_record = &accounts[TOKEN_OWNER_RECORD];

    // the realm must take deposits of the mint into this vault
    let realm_data = get_realm_data(program_id, realm)?;
    realm_data.asset_governing_tokens_deposits_allowed(&delegate_token_mint.key)?;
    realm_data.assert_is_valid_governing_token_mint_and_holding(
        program_id,
        &realm.key,
        &delegate_token_mint.key,
        &capital_token_holding_account.key,
    )?;

    // the capital must be the depositor's own
    let capital_owner = get_spl_token_owner(capital_token_account)?;
    if capital_owner != capital_token_authority.key || !capital_token_authority.is_signer {
        return Err(ProgramError::Governance(GovernanceError::GoverningTokenOwnerMustSign));
    }

    // create account if it doesn't exist
    let create_destination_account = if lp_token_account.data_is_empty() {
        match create_associated_token_account(
            &capital_token_authority.key,
            &capital_token_authority.key,
            &lp_token_mint.key,
        ) {
            Some(instruction) => {
                if instruction.accounts[1].pubkey != lp_token_account.key {
                    return Err(ProgramError::InvalidSeeds);
                }
                Some(instruction)
            },
            None => {
                return Err(ProgramError::InvalidSeeds);
            },
        }
    } else {
        assert_token_holding(lp_token_account, &lp_token_mint.key, &capital_token_authority.key)?;
        None
    };

    // transfer capital
    let capital_transfer = transfer(
        &token_program.key,
        &capital_token_account.key,
        &capital_token_holding_account.key,
        &capital_token_authority.key,
        &capital_token_authority.key,
        amount,
    )?;

    // transfer lp
    let reward_transfer = transfer(
        &token_program.key,
        &lp_token_holding_account.key,
        &lp_token_account.key,
        &lp_governance.key,
        &lp_governance.key,
        amount,
    )?;
    let seeds = get_mint_governance_address_seeds(&realm.key, &delegate_token_mint.key);
    let bump = match Pubkey::try_find_address(&seeds, program_id) {
        Some((address, bump)) => {
            if address != lp_governance.key {
                return Err(
                    ProgramError::Governance(GovernanceError::InvalidGovernanceAccountAddress),
                );
            }
            bump
        },
        None => {
            return Err(ProgramError::Governance(GovernanceError::InvalidGovernanceAccountAddress));
        },
    };

    // the reward must come out of the governance's own vault
    assert_token_holding(lp_token_holding_account, &lp_token_mint.key, &lp_governance.key)?;

    // count the deposit
    let record = update_ledger(
        program_id,
        &realm.key,
        &delegate_token_mint.key,
        &capital_token_authority.key,
        capital_token_authority.is_signer,
        token_owner_record,
        amount,
    )?;

    Ok(
        DepositCapitalPlan {
            create_destination_account,
            capital_transfer,
            reward_transfer,
            reward_signer: MintGovernanceSigner {
                realm: realm.key,
                governed_mint: delegate_token_mint.key,
                bump,
            },
            token_owner_record: record,
        },
    )
}

/// The exchange is atomic in the identity check: for a depositor who is not
/// verified, whatever else the accounts hold and whether or not the
/// depositor's record was handed over, the instruction fails with
/// `UserIdentityNotKnown` and plans nothing, so that no token moves and no
/// record is written.
pub proof fn lemma_unverified_deposit_does_nothing(
    program_id: Pubkey,
    accounts: Seq<AccountInfo>,
    amount: u64,
)
    requires
        accounts.len() >= IDENTITY_CHECK_ACCOUNTS,
        !identity_is_verified(
            &accounts[IDENTITY_VERIFICATION_RECORD as int],
            accounts[CAPITAL_TOKEN_AUTHORITY as int].key,
            accounts[REALM as int].key,
            accounts[IDENTITY_VERIFICATION_PROGRAM as int].key,
        ),
    ensures
        deposit_capital_result(program_id, accounts, amount) == Err::<
            DepositCapitalPlanView,
            ProgramError,
        >(ProgramError::Governance(GovernanceError::UserIdentityNotKnown)),
{
}

/// A planned exchange moves the same amount both ways and counts it on the
/// ledger: the capital goes to the vault that the realm holds for the mint,
/// the reward leaves a vault whose tokens are the governance's under the
/// governance's own derived authority and reaches an account of the
/// depositor's, which is the one created where one is created, and the
/// depositor's record is the one at the address derived for the depositor.
#[verifier::rlimit(50)]
pub proof fn lemma_planned_exchange_is_one_to_one(
    program_id: Pubkey,
    accounts: Seq<AccountInfo>,
    amount: u64,
)
    requires
        deposit_capital_result(program_id, accounts, amount) is Ok,
    ensures
        ({
            let plan = deposit_capital_result(program_id, accounts, amount)->Ok_0;
            let realm = accounts[REALM as int].key;
            let mint = accounts[DELEGATE_TOKEN_MINT as int].key;
            let depositor = accounts[CAPITAL_TOKEN_AUTHORITY as int];
            &&& plan.capital_transfer.data == seq![crate::token::TRANSFER_TAG] + crate::wire::wire_u64(amount)
            &&& plan.reward_transfer.data == plan.capital_transfer.data
            &&& Some(plan.capital_transfer.accounts[1].pubkey) == governing_token_holding_address(
                program_id,
                realm,
                mint,
            )
            &&& derive_address(
                governance_seeds(GovernanceAccountType::MintGovernance, realm, mint),
                program_id,
            ) == Some((plan.reward_transfer.accounts[3].pubkey, plan.reward_signer.bump))
            &&& plan.reward_transfer.accounts[3].is_signer
            &&& plan.reward_transfer.accounts[1].pubkey == accounts[LP_TOKEN_ACCOUNT as int].key
            &&& token_account_owner(&accounts[LP_TOKEN_HOLDING_ACCOUNT as int]) == Ok::<
                Pubkey,
                ProgramError,
            >(plan.reward_transfer.accounts[3].pubkey)
            &&& match plan.create_destination_account {
                Some(create) => create.accounts[1].pubkey == plan.reward_transfer.accounts[1].pubkey
                    && create.accounts[2].pubkey == depositor.key,
                None => token_account_owner(&accounts[LP_TOKEN_ACCOUNT as int]) == Ok::<
                    Pubkey,
                    ProgramError,
                >(depositor.key),
            }
            &&& deposit_result(
                existing_record(program_id, &accounts[TOKEN_OWNER_RECORD as int])->Ok_0,
                realm,
                mint,
                depositor.key,
                depositor.is_signer,
                amount,
            ) == Ok::<TokenOwnerRecord, ProgramError>(plan.token_owner_record)
        }),
{
}

} // verus!
