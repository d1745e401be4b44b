use std::collections::HashMap;

use realm_governance::account::AccountInfo;
use realm_governance::deposit_capital::{
    process_deposit_capital, DepositCapitalPlan, MintGovernanceSigner,
};
use realm_governance::enums::{MintMaxVoteWeightSource, SUPPLY_FRACTION_BASE};
use realm_governance::error::{GovernanceError, GovernanceToolsError, ProgramError};
use realm_governance::governance::get_mint_governance_address;
use realm_governance::governing_tokens::{
    process_deposit_governing_tokens, process_withdraw_governing_tokens,
};
use realm_governance::identity::Identity;
use realm_governance::proposal_transaction::{AccountMetaData, InstructionData};
use realm_governance::pubkey::{Pubkey, SYSTEM_PROGRAM_ID};
use realm_governance::realm::{
    create_realm, get_governing_token_holding_address, get_realm_address, RealmConfigArgs,
};
use realm_governance::token::{
    assert_token_holding, create_associated_token_account, get_spl_token_mint,
    get_spl_token_owner, transfer, ASSOCIATED_TOKEN_PROGRAM_ID, RENT_SYSVAR_ID,
    SPL_TOKEN_PROGRAM_ID,
};
use realm_governance::token_owner_record::{
    create_token_owner_record, get_token_owner_record_address, TokenOwnerRecord,
};
use realm_governance::verification::{
    assert_identity_verification, get_identity_address_seeds, try_get_identity_address,
};
use spl_token::solana_program::program_option::COption;
use spl_token::solana_program::program_pack::Pack;

fn key(n: u8) -> Pubkey {
    Pubkey::new_from_array([n; 32])
}

fn account(key: Pubkey, owner: Pubkey, is_signer: bool, data: Vec<u8>) -> AccountInfo {
    AccountInfo { key, is_signer, is_writable: true, owner, data }
}

/// The data of a token account of `owner` for `mint`, as the token program
/// writes it.
#[allow(deprecated)]
fn token_account_data(
    mint: Pubkey,
    owner: Pubkey,
    state: spl_token::state::AccountState,
) -> Vec<u8> {
    let account = spl_token::state::Account {
        mint: spl_token::solana_program::pubkey::Pubkey::new_from_array(mint.to_bytes()),
        owner: spl_token::solana_program::pubkey::Pubkey::new_from_array(owner.to_bytes()),
        amount: 5_000,
        delegate: COption::None,
        state,
        is_native: COption::None,
        delegated_amount: 0,
        close_authority: COption::None,
    };
    let mut data = vec![0u8; spl_token::state::Account::LEN];
    spl_token::state::Account::pack(account, &mut data).unwrap();
    data
}

/// A token account in use at `at`, which holds tokens of `mint` for `owner`.
#[allow(deprecated)]
fn token_account(at: Pubkey, mint: Pubkey, owner: Pubkey) -> AccountInfo {
    account(
        at,
        Pubkey::new_from_array(SPL_TOKEN_PROGRAM_ID),
        false,
        token_account_data(mint, owner, spl_token::state::AccountState::Initialized),
    )
}

fn capital_account(owner: Pubkey) -> AccountInfo {
    token_account(key(CAPITAL_ACCOUNT), key(MINT), owner)
}

fn unknown<T>() -> Result<T, ProgramError> {
    Err(ProgramError::Governance(GovernanceError::UserIdentityNotKnown))
}

const PROGRAM: u8 = 1;
const IDENTITY_PROGRAM: u8 = 2;
const DEPOSITOR: u8 = 3;
const MINT: u8 = 4;
const LP_MINT: u8 = 5;
const CAPITAL_ACCOUNT: u8 = 20;
const LP_ACCOUNT: u8 = 21;
const LP_VAULT: u8 = 22;

/// Token balances by account, and the depositor's record as it was written
/// last.
struct World {
    balances: HashMap<Pubkey, u64>,
    record: Option<TokenOwnerRecord>,
}

impl World {
    fn new() -> World {
        let mut balances = HashMap::new();
        balances.insert(key(CAPITAL_ACCOUNT), 5_000);
        balances.insert(key(LP_VAULT), 9_000);
        balances.insert(key(LP_ACCOUNT), 0);
        balances.insert(vault(), 0);
        World { balances, record: None }
    }

    fn balance(&self, of: Pubkey) -> u64 {
        *self.balances.get(&of).unwrap()
    }

    /// Moves tokens as a transfer instruction says.
    fn invoke(&mut self, instruction: &InstructionData) {
        assert_eq!(instruction.program_id, Pubkey::new_from_array(SPL_TOKEN_PROGRAM_ID));
        assert_eq!(instruction.data[0], 3);
        let mut amount = [0u8; 8];
        amount.copy_from_slice(&instruction.data[1..9]);
        let amount = u64::from_le_bytes(amount);
        let (source, destination) = (instruction.accounts[0].pubkey, instruction.accounts[1].pubkey);
        *self.balances.get_mut(&source).unwrap() -= amount;
        *self.balances.get_mut(&destination).unwrap() += amount;
    }

    /// Performs the planned steps in their order.
    fn perform(&mut self, plan: &DepositCapitalPlan) {
        self.invoke(&plan.capital_transfer);
        self.invoke(&plan.reward_transfer);
        self.record = Some(plan.token_owner_record);
    }
}

fn realm_key() -> Pubkey {
    get_realm_address(&key(PROGRAM), "Acme")
}

fn vault() -> Pubkey {
    get_governing_token_holding_address(&key(PROGRAM), &realm_key(), &key(MINT))
}

fn lp_governance() -> Pubkey {
    get_mint_governance_address(&key(PROGRAM), &realm_key(), &key(MINT))
}

/// The depositor's associated account of the reward mint.
fn associated_account() -> Pubkey {
    Pubkey::try_find_program_address(
        &[&key(DEPOSITOR).to_bytes(), &SPL_TOKEN_PROGRAM_ID, &key(LP_MINT).to_bytes()],
        &Pubkey::new_from_array(ASSOCIATED_TOKEN_PROGRAM_ID),
    )
    .unwrap()
    .0
}

fn record_key() -> Pubkey {
    get_token_owner_record_address(&key(PROGRAM), &realm_key(), &key(MINT), &key(DEPOSITOR))
}

fn realm_account() -> AccountInfo {
    let args = RealmConfigArgs {
        use_council_mint: false,
        min_community_weight_to_create_governance: 1,
        community_mint_max_vote_weight_source: MintMaxVoteWeightSource::SupplyFraction(
            SUPPLY_FRACTION_BASE,
        ),
        use_community_voter_weight_addin: false,
        use_max_community_voter_weight_addin: false,
    };
    let empty = account(realm_key(), key(0), false, vec![]);
    let realm =
        create_realm(&key(PROGRAM), &empty, "Acme".to_string(), &key(MINT), None, &key(9), &args)
            .unwrap();
    let mut data = vec![];
    realm.serialize(&mut data).unwrap();
    account(realm_key(), key(PROGRAM), false, data)
}

fn identity_account(ia_status: u8, aml_status: u8, kyc_status: u8) -> AccountInfo {
    let address =
        try_get_identity_address(&key(IDENTITY_PROGRAM), &realm_key(), &key(DEPOSITOR)).unwrap();
    let identity = Identity {
        discriminator: [0; 8],
        bump: 255,
        ia_status,
        aml_status,
        kyc_status,
        authority: key(8),
    };
    account(address, key(IDENTITY_PROGRAM), false, identity.serialize())
}

/// The accounts of the instruction, in their places.
fn accounts(world: &World, identity: AccountInfo) -> Vec<AccountInfo> {
    let record_data = match world.record {
        Some(record) => {
            let mut data = vec![];
            record.serialize(&mut data).unwrap();
            data
        }
        None => vec![],
    };
    let record_owner = if world.record.is_some() { key(PROGRAM) } else { key(0) };
    vec![
        realm_account(),
        account(lp_governance(), key(PROGRAM), false, vec![1]),
        account(key(DEPOSITOR), key(0), true, vec![]),
        capital_account(key(DEPOSITOR)),
        account(vault(), Pubkey::new_from_array(SPL_TOKEN_PROGRAM_ID), false, vec![1]),
        token_account(key(LP_ACCOUNT), key(LP_MINT), key(DEPOSITOR)),
        token_account(key(LP_VAULT), key(LP_MINT), lp_governance()),
        account(key(LP_MINT), Pubkey::new_from_array(SPL_TOKEN_PROGRAM_ID), false, vec![1]),
        account(key(MINT), Pubkey::new_from_array(SPL_TOKEN_PROGRAM_ID), false, vec![1]),
        identity,
        account(key(IDENTITY_PROGRAM), key(0), false, vec![]),
        account(Pubkey::new_from_array(SPL_TOKEN_PROGRAM_ID), key(0), false, vec![]),
        account(Pubkey::new_from_array(SYSTEM_PROGRAM_ID), key(0), false, vec![]),
        account(Pubkey::new_from_array(RENT_SYSVAR_ID), key(0), false, vec![]),
        account(record_key(), record_owner, false, record_data),
    ]
}

#[test]
fn verified_depositor_exchanges_capital_one_to_one() {
    let mut world = World::new();
    let plan =
        process_deposit_capital(&key(PROGRAM), &accounts(&world, identity_account(2, 2, 2)), 1_000)
            .unwrap();
    assert_eq!(plan.create_destination_account, None);
    world.perform(&plan);

    assert_eq!(world.balance(vault()), 1_000);
    assert_eq!(world.balance(key(LP_ACCOUNT)), 1_000);
    assert_eq!(world.balance(key(CAPITAL_ACCOUNT)), 4_000);
    assert_eq!(world.balance(key(LP_VAULT)), 8_000);
    assert_eq!(world.record.unwrap().governing_token_deposit_amount, 1_000);
    assert_eq!(
        world.record,
        Some(create_token_owner_record(&realm_key(), &key(MINT), &key(DEPOSITOR), 1_000))
    );

    // a second deposit adds to the same record
    let plan =
        process_deposit_capital(&key(PROGRAM), &accounts(&world, identity_account(2, 2, 2)), 250)
            .unwrap();
    world.perform(&plan);
    assert_eq!(world.balance(vault()), 1_250);
    assert_eq!(world.balance(key(LP_ACCOUNT)), 1_250);
    assert_eq!(world.record.unwrap().governing_token_deposit_amount, 1_250);
}

#[test]
fn unverified_depositor_changes_nothing() {
    let mut world = World::new();
    let plan =
        process_deposit_capital(&key(PROGRAM), &accounts(&world, identity_account(2, 2, 2)), 1_000)
            .unwrap();
    world.perform(&plan);
    let balances = world.balances.clone();
    let record = world.record;

    for (ia, aml, kyc) in [(2, 1, 2), (2, 2, 0), (3, 2, 2), (0, 0, 0), (2, 2, 3)] {
        let result = process_deposit_capital(
            &key(PROGRAM),
            &accounts(&world, identity_account(ia, aml, kyc)),
            1_000,
        );
        assert_eq!(result, unknown());
        if let Ok(plan) = result {
            world.perform(&plan);
        }
        assert_eq!(world.balances, balances);
        assert_eq!(world.record, record);
    }
    assert_eq!(world.balance(vault()), 1_000);
    assert_eq!(world.balance(key(LP_ACCOUNT)), 1_000);
    assert_eq!(world.record.unwrap().governing_token_deposit_amount, 1_000);
}

#[test]
fn identity_record_must_be_the_depositors() {
    let world = World::new();
    // a record of someone else, at another address
    let mut elsewhere = identity_account(2, 2, 2);
    elsewhere.key = key(99);
    assert_eq!(process_deposit_capital(&key(PROGRAM), &accounts(&world, elsewhere), 1), unknown());
    // not a record at all
    let mut short = identity_account(2, 2, 2);
    short.data.truncate(43);
    assert_eq!(process_deposit_capital(&key(PROGRAM), &accounts(&world, short), 1), unknown());

    let list = accounts(&world, identity_account(2, 2, 2));
    assert_eq!(assert_identity_verification(&list[9], &list[2], &list[0], &list[10]), Ok(false));
    // under another group the depositor is not known
    assert_eq!(assert_identity_verification(&list[9], &list[2], &list[1], &list[10]), unknown());
    assert_eq!(assert_identity_verification(&list[9], &list[3], &list[0], &list[10]), unknown());
    assert_eq!(assert_identity_verification(&list[9], &list[2], &list[0], &list[11]), unknown());
    let seeds = get_identity_address_seeds(&list[0].key, &list[2].key);
    assert_eq!(seeds[0], b"identity");
    assert_eq!(seeds[1], &list[0].key.to_bytes()[..]);
    assert_eq!(seeds[2], &list[2].key.to_bytes()[..]);
}

#[test]
fn exchange_plan_is_signed_for_the_governance() {
    let world = World::new();
    let list = accounts(&world, identity_account(2, 2, 2));
    let plan = process_deposit_capital(&key(PROGRAM), &list, 1_000).unwrap();

    let token = Pubkey::new_from_array(SPL_TOKEN_PROGRAM_ID);
    let meta = |pubkey, is_signer, is_writable| AccountMetaData { pubkey, is_signer, is_writable };
    let mut data = vec![3u8];
    data.extend_from_slice(&1_000u64.to_le_bytes());
    assert_eq!(
        plan.capital_transfer,
        InstructionData {
            program_id: token,
            accounts: vec![
                meta(key(CAPITAL_ACCOUNT), false, true),
                meta(vault(), false, true),
                meta(key(DEPOSITOR), false, false),
                meta(key(DEPOSITOR), true, false),
            ],
            data: data.clone(),
        }
    );
    assert_eq!(
        plan.reward_transfer,
        InstructionData {
            program_id: token,
            accounts: vec![
                meta(key(LP_VAULT), false, true),
                meta(key(LP_ACCOUNT), false, true),
                meta(lp_governance(), false, false),
                meta(lp_governance(), true, false),
            ],
            data,
        }
    );
    let MintGovernanceSigner { realm, governed_mint, bump } = plan.reward_signer;
    assert_eq!((realm, governed_mint), (realm_key(), key(MINT)));
    let seeds = plan.reward_signer.signer_seeds();
    assert_eq!(seeds.len(), 4);
    assert_eq!(seeds[0], b"mint-governance");
    assert_eq!(seeds[1], realm_key().to_bytes());
    assert_eq!(seeds[2], key(MINT).to_bytes());
    assert_eq!(seeds[3], vec![bump]);
    // the seeds with the bump seed make the address of the governance
    let slices: Vec<&[u8]> = seeds.iter().map(|s| &s[..]).collect();
    let made = solana_program::pubkey::Pubkey::create_program_address(
        &slices,
        &solana_program::pubkey::Pubkey::new_from_array(key(PROGRAM).to_bytes()),
    )
    .unwrap();
    assert_eq!(made.to_bytes(), lp_governance().to_bytes());
}

#[test]
fn destination_account_is_created_where_there_is_none() {
    let world = World::new();
    let mut list = accounts(&world, identity_account(2, 2, 2));
    // an account without data at another address is not the one to be created
    list[5].data = vec![];
    assert_eq!(
        process_deposit_capital(&key(PROGRAM), &list, 1_000),
        Err(ProgramError::InvalidSeeds)
    );
    list[5] = account(associated_account(), key(0), false, vec![]);
    let plan = process_deposit_capital(&key(PROGRAM), &list, 1_000).unwrap();
    assert_eq!(plan.reward_transfer.accounts[1].pubkey, associated_account());
    let created = plan.create_destination_account.unwrap();
    assert_eq!(created.accounts[1].pubkey, plan.reward_transfer.accounts[1].pubkey);
    assert_eq!(
        Some(created.clone()),
        create_associated_token_account(&key(DEPOSITOR), &key(DEPOSITOR), &key(LP_MINT))
    );
    assert_eq!(created.program_id, Pubkey::new_from_array(ASSOCIATED_TOKEN_PROGRAM_ID));
    assert_eq!(created.data, Vec::<u8>::new());
    assert_eq!(created.accounts.len(), 7);
    assert_eq!(
        created.accounts[0],
        AccountMetaData { pubkey: key(DEPOSITOR), is_signer: true, is_writable: true }
    );
    let expected = spl_associated_token_account::get_associated_token_address(
        &spl_associated_token_account::solana_program::pubkey::Pubkey::new_from_array(
            key(DEPOSITOR).to_bytes(),
        ),
        &spl_associated_token_account::solana_program::pubkey::Pubkey::new_from_array(
            key(LP_MINT).to_bytes(),
        ),
    );
    assert_eq!(associated_account().to_bytes(), expected.to_bytes());
    assert_eq!(
        created.accounts[1],
        AccountMetaData { pubkey: associated_account(), is_signer: false, is_writable: true }
    );
    let read_only = |pubkey| AccountMetaData { pubkey, is_signer: false, is_writable: false };
    assert_eq!(created.accounts[2], read_only(key(DEPOSITOR)));
    assert_eq!(created.accounts[3], read_only(key(LP_MINT)));
    assert_eq!(created.accounts[4], read_only(Pubkey::new_from_array(SYSTEM_PROGRAM_ID)));
    assert_eq!(created.accounts[5], read_only(Pubkey::new_from_array(SPL_TOKEN_PROGRAM_ID)));
    assert_eq!(created.accounts[6], read_only(Pubkey::new_from_array(RENT_SYSVAR_ID)));
}

#[test]
fn exchange_checks_every_account_that_claims_a_role() {
    let world = World::new();
    let good = accounts(&world, identity_account(2, 2, 2));
    let run = |change: &dyn Fn(&mut Vec<AccountInfo>)| {
        let mut list = good.clone();
        change(&mut list);
        process_deposit_capital(&key(PROGRAM), &list, 1_000).map(|_| ())
    };
    let refused = |e: GovernanceError| Err(ProgramError::Governance(e));

    assert_eq!(run(&|_| {}), Ok(()));
    assert_eq!(run(&|list| list.truncate(14)), Err(ProgramError::NotEnoughAccountKeys));
    assert_eq!(
        run(&|list| list[0].owner = key(66)),
        Err(ProgramError::Tools(GovernanceToolsError::InvalidAccountOwner))
    );
    assert_eq!(
        run(&|list| list[4].key = key(67)),
        refused(GovernanceError::InvalidGoverningTokenHoldingAccount)
    );
    assert_eq!(run(&|list| list[11].key = key(68)), Err(ProgramError::IncorrectProgramId));
    assert_eq!(
        run(&|list| list[1].key = key(69)),
        refused(GovernanceError::InvalidGovernanceAccountAddress)
    );
    assert_eq!(
        run(&|list| list[14].key = key(70)),
        refused(GovernanceError::InvalidTokenOwnerRecordAccountAddress)
    );
    // the depositor must have signed for a first deposit
    assert_eq!(
        run(&|list| list[2].is_signer = false),
        refused(GovernanceError::GoverningTokenOwnerMustSign)
    );
    // the capital must be held in a token account of the depositor
    assert_eq!(
        run(&|list| list[3] = capital_account(key(72))),
        refused(GovernanceError::GoverningTokenOwnerMustSign)
    );
    assert_eq!(
        run(&|list| list[3].data = vec![]),
        refused(GovernanceError::SplTokenAccountDoesNotExist)
    );
    assert_eq!(
        run(&|list| list[3].owner = key(73)),
        refused(GovernanceError::SplTokenAccountWithInvalidOwner)
    );
    assert_eq!(
        run(&|list| list[3].data.push(0)),
        refused(GovernanceError::SplTokenInvalidTokenAccountData)
    );
    assert_eq!(
        run(&|list| list[3].data[108] = 0),
        refused(GovernanceError::SplTokenAccountNotInitialized)
    );
    // another mint than the realm's: under it the holding account is another one too
    assert_eq!(
        run(&|list| list[8].key = key(71)),
        refused(GovernanceError::InvalidGoverningTokenMint)
    );
    // the reward leaves a vault that holds the reward mint for the governance
    assert_eq!(
        run(&|list| list[6] = token_account(key(LP_VAULT), key(LP_MINT), key(75))),
        Err(ProgramError::IllegalOwner)
    );
    assert_eq!(
        run(&|list| list[6] = token_account(key(LP_VAULT), key(MINT), lp_governance())),
        Err(ProgramError::InvalidAccountData)
    );
    assert_eq!(run(&|list| list[7].key = key(76)), Err(ProgramError::InvalidAccountData));
    assert_eq!(
        run(&|list| list[6].data = vec![]),
        refused(GovernanceError::SplTokenAccountDoesNotExist)
    );
    assert_eq!(
        run(&|list| list[6].owner = key(77)),
        refused(GovernanceError::SplTokenAccountWithInvalidOwner)
    );
    assert_eq!(
        run(&|list| list[6].data = vec![1]),
        refused(GovernanceError::SplTokenInvalidTokenAccountData)
    );
    assert_eq!(
        run(&|list| list[6].data[108] = 0),
        refused(GovernanceError::SplTokenAccountNotInitialized)
    );
    // and reaches an account that holds the reward mint for the depositor
    assert_eq!(
        run(&|list| list[5] = token_account(key(LP_ACCOUNT), key(LP_MINT), key(78))),
        Err(ProgramError::IllegalOwner)
    );
    assert_eq!(
        run(&|list| list[5] = token_account(key(LP_ACCOUNT), key(MINT), key(DEPOSITOR))),
        Err(ProgramError::InvalidAccountData)
    );
    assert_eq!(
        run(&|list| list[5].owner = key(79)),
        refused(GovernanceError::SplTokenAccountWithInvalidOwner)
    );
    assert_eq!(
        run(&|list| list[5].data = vec![1]),
        refused(GovernanceError::SplTokenInvalidTokenAccountData)
    );
}

#[test]
fn identity_is_checked_before_the_record_is_asked_for() {
    // the accounts up to the rent sysvar, and a depositor whose AML check is
    // still under way
    let mut list: Vec<AccountInfo> =
        (0..14u8).map(|n| account(key(100 + n), key(0), false, vec![])).collect();
    let mut record = vec![0u8; 8];
    record.extend_from_slice(&[255, 2, 1, 2]);
    record.extend_from_slice(&[0u8; 32]);
    list[9].data = record;
    assert_eq!(process_deposit_capital(&key(PROGRAM), &list, 1_000), unknown());

    let world = World::new();
    let mut unverified = accounts(&world, identity_account(2, 1, 2));
    unverified.truncate(14);
    assert_eq!(process_deposit_capital(&key(PROGRAM), &unverified, 1_000), unknown());
    unverified.truncate(13);
    assert_eq!(
        process_deposit_capital(&key(PROGRAM), &unverified, 1_000),
        Err(ProgramError::NotEnoughAccountKeys)
    );

    // a verified depositor is asked for the record
    let mut verified = accounts(&world, identity_account(2, 2, 2));
    assert!(process_deposit_capital(&key(PROGRAM), &verified, 1_000).is_ok());
    verified.truncate(14);
    assert_eq!(
        process_deposit_capital(&key(PROGRAM), &verified, 1_000),
        Err(ProgramError::NotEnoughAccountKeys)
    );
    assert_eq!(
        process_deposit_capital(&key(PROGRAM), &[], 1_000),
        Err(ProgramError::NotEnoughAccountKeys)
    );
}

#[test]
fn token_account_says_whose_tokens_of_which_mint_it_holds() {
    let held = token_account(key(LP_VAULT), key(LP_MINT), key(DEPOSITOR));
    assert_eq!(get_spl_token_owner(&held), Ok(key(DEPOSITOR)));
    assert_eq!(get_spl_token_mint(&held), Ok(key(LP_MINT)));
    assert_eq!(assert_token_holding(&held, &key(LP_MINT), &key(DEPOSITOR)), Ok(()));
    assert_eq!(
        assert_token_holding(&held, &key(LP_MINT), &key(MINT)),
        Err(ProgramError::IllegalOwner)
    );
    assert_eq!(
        assert_token_holding(&held, &key(DEPOSITOR), &key(DEPOSITOR)),
        Err(ProgramError::InvalidAccountData)
    );
    let mut empty = held.clone();
    empty.data = vec![];
    assert_eq!(
        get_spl_token_mint(&empty),
        Err(ProgramError::Governance(GovernanceError::SplTokenAccountDoesNotExist))
    );
    assert_eq!(
        assert_token_holding(&empty, &key(LP_MINT), &key(DEPOSITOR)),
        Err(ProgramError::Governance(GovernanceError::SplTokenAccountDoesNotExist))
    );
}

#[test]
fn transfer_is_for_the_token_program_only() {
    assert_eq!(
        transfer(&key(1), &key(2), &key(3), &key(4), &key(4), 5),
        Err(ProgramError::IncorrectProgramId)
    );
    let built = transfer(
        &Pubkey::new_from_array(SPL_TOKEN_PROGRAM_ID),
        &key(2),
        &key(3),
        &key(4),
        &key(5),
        0x0102_0304_0506_0708,
    )
    .unwrap();
    assert_eq!(built.data, vec![3, 8, 7, 6, 5, 4, 3, 2, 1]);
    assert_eq!(built.accounts.len(), 4);
    assert_eq!(built.accounts[3].pubkey, key(5));
    assert!(built.accounts[3].is_signer);
    assert!(!built.accounts[2].is_signer);
}

#[test]
fn governing_tokens_are_deposited_and_withdrawn() {
    let token = Pubkey::new_from_array(SPL_TOKEN_PROGRAM_ID);
    let realm = realm_account();
    let owner = account(key(DEPOSITOR), key(0), true, vec![]);
    let empty = account(record_key(), key(0), false, vec![]);

    let source = capital_account(key(DEPOSITOR));
    let plan = process_deposit_governing_tokens(
        &key(PROGRAM),
        &realm,
        &vault(),
        &source,
        &owner,
        &empty,
        &key(MINT),
        &token,
        700,
    )
    .unwrap();
    assert_eq!(get_spl_token_owner(&source), Ok(key(DEPOSITOR)));
    assert_eq!(plan.token_owner_record.governing_token_owner, key(DEPOSITOR));

    // one who signs for tokens of another owner opens no record for that owner
    let delegate = account(key(74), key(0), true, vec![]);
    assert_eq!(
        process_deposit_governing_tokens(
            &key(PROGRAM),
            &realm,
            &vault(),
            &source,
            &delegate,
            &empty,
            &key(MINT),
            &token,
            700,
        ),
        Err(ProgramError::Governance(GovernanceError::GoverningTokenOwnerMustSign))
    );
    assert_eq!(plan.token_owner_record.governing_token_deposit_amount, 700);
    assert_eq!(plan.transfer.accounts[0].pubkey, key(CAPITAL_ACCOUNT));
    assert_eq!(plan.transfer.accounts[1].pubkey, vault());
    assert_eq!(plan.transfer.accounts[3].pubkey, key(DEPOSITOR));

    let mut data = vec![];
    plan.token_owner_record.serialize(&mut data).unwrap();
    let record = account(record_key(), key(PROGRAM), false, data);

    // but adds to the record that the owner has
    let added = process_deposit_governing_tokens(
        &key(PROGRAM),
        &realm,
        &vault(),
        &source,
        &delegate,
        &record,
        &key(MINT),
        &token,
        50,
    )
    .unwrap();
    assert_eq!(added.token_owner_record.governing_token_deposit_amount, 750);
    assert_eq!(added.token_owner_record.governing_token_owner, key(DEPOSITOR));
    assert_eq!(added.transfer.accounts[3].pubkey, key(74));

    let out = process_withdraw_governing_tokens(
        &key(PROGRAM),
        &realm,
        &vault(),
        &key(CAPITAL_ACCOUNT),
        &owner,
        &record,
        &key(MINT),
        &token,
        300,
    )
    .unwrap();
    assert_eq!(out.token_owner_record.governing_token_deposit_amount, 400);
    assert_eq!(out.transfer.accounts[0].pubkey, vault());
    assert_eq!(out.transfer.accounts[1].pubkey, key(CAPITAL_ACCOUNT));
    assert_eq!(out.transfer.accounts[3].pubkey, realm_key());
    assert_eq!(out.signer.name, "Acme");
    let made = solana_program::pubkey::Pubkey::create_program_address(
        &[b"governance", b"Acme", &[out.signer.bump]],
        &solana_program::pubkey::Pubkey::new_from_array(key(PROGRAM).to_bytes()),
    )
    .unwrap();
    assert_eq!(made.to_bytes(), realm_key().to_bytes());

    let withdraw = |record: &AccountInfo, owner: &AccountInfo, amount: u64| {
        process_withdraw_governing_tokens(
            &key(PROGRAM),
            &realm,
            &vault(),
            &key(CAPITAL_ACCOUNT),
            owner,
            record,
            &key(MINT),
            &token,
            amount,
        )
        .map(|_| ())
    };
    assert_eq!(
        withdraw(&record, &owner, 701),
        Err(ProgramError::Governance(GovernanceError::NumericalOverflow))
    );
    let unsigned = account(key(DEPOSITOR), key(0), false, vec![]);
    assert_eq!(
        withdraw(&record, &unsigned, 1),
        Err(ProgramError::Governance(GovernanceError::GoverningTokenOwnerMustSign))
    );
    assert_eq!(
        withdraw(&empty, &owner, 1),
        Err(ProgramError::Tools(GovernanceToolsError::AccountDoesNotExist))
    );
    for votes in [1u32, 7] {
        let mut voting = plan.token_owner_record;
        voting.unrelinquished_votes_count = votes;
        let mut data = vec![];
        voting.serialize(&mut data).unwrap();
        let record = account(record_key(), key(PROGRAM), false, data);
        assert_eq!(
            withdraw(&record, &owner, 1),
            Err(ProgramError::Governance(
                GovernanceError::AllVotesMustBeRelinquishedToWithdrawGoverningTokens
            ))
        );
    }
}
