use realm_governance::account::{assert_account_exists, get_account_type, AccountInfo};
use realm_governance::enums::{
    GovernanceAccountType, MintMaxVoteWeightSource, TransactionExecutionStatus,
    VoteThresholdPercentage, VoteTipping, SUPPLY_FRACTION_BASE,
};
use realm_governance::error::{GovernanceError, GovernanceToolsError, ProgramError};
use realm_governance::governance::{
    assert_is_valid_governance, assert_is_valid_governance_config,
    assert_valid_create_governance_args, create_governance, get_governance_address,
    get_governance_data, get_governance_data_for_realm, get_mint_governance_address,
    get_program_governance_address, get_token_governance_address,
    is_governance_v2_account_type, set_governance_config, Governance, GovernanceConfig,
};
use realm_governance::proposal_transaction::{
    find_proposal_transaction_address, get_proposal_transaction_address,
    get_proposal_transaction_data_for_proposal, insert_transaction, ExecutionStep,
    InstructionData, ProposalTransaction,
};
use realm_governance::pubkey::Pubkey;
use realm_governance::realm::{
    assert_is_valid_realm, assert_valid_realm_config_args, create_realm, get_realm_address,
    get_realm_data, get_realm_data_for_authority, get_realm_data_for_governing_token_mint,
    is_realm_account_type, set_realm_authority, set_realm_config, Realm, RealmConfigArgs,
    SetRealmAuthorityAction,
};
use realm_governance::token_owner_record::{
    create_token_owner_record, deposit_governing_tokens, get_token_owner_record_address,
    get_token_owner_record_data_for_realm, TokenOwnerRecord,
};
use realm_governance::vote_record::{
    cast_vote, get_vote_record_address, get_vote_record_data_for_proposal_and_token_owner,
    relinquish_vote, Vote, VoteChoice,
};

fn key(n: u8) -> Pubkey {
    Pubkey::new_from_array([n; 32])
}

fn governance_error<T>(e: GovernanceError) -> Result<T, ProgramError> {
    Err(ProgramError::Governance(e))
}

fn account(key: Pubkey, owner: Pubkey, is_signer: bool, data: Vec<u8>) -> AccountInfo {
    AccountInfo { key, is_signer, is_writable: true, owner, data }
}

fn program() -> Pubkey {
    key(1)
}

fn config(threshold: VoteThresholdPercentage, cool_off: u32) -> GovernanceConfig {
    GovernanceConfig {
        vote_threshold_percentage: threshold,
        min_community_weight_to_create_proposal: 1,
        min_transaction_hold_up_time: 0,
        max_voting_time: 100,
        vote_tipping: VoteTipping::Strict,
        proposal_cool_off_time: cool_off,
        min_council_weight_to_create_proposal: 1,
    }
}

fn realm_args() -> RealmConfigArgs {
    RealmConfigArgs {
        use_council_mint: false,
        min_community_weight_to_create_governance: 100,
        community_mint_max_vote_weight_source: MintMaxVoteWeightSource::SupplyFraction(
            SUPPLY_FRACTION_BASE,
        ),
        use_community_voter_weight_addin: false,
        use_max_community_voter_weight_addin: false,
    }
}

/// The realm "Acme" with community mint `key(4)` and authority `key(9)`, and
/// the account that holds it.
fn acme() -> (Realm, AccountInfo) {
    let realm_key = get_realm_address(&program(), "Acme");
    let empty = account(realm_key, key(0), false, vec![]);
    let realm =
        create_realm(&program(), &empty, "Acme".to_string(), &key(4), None, &key(9), &realm_args())
            .unwrap();
    let mut data = vec![];
    realm.clone().serialize(&mut data).unwrap();
    (realm, account(realm_key, program(), false, data))
}

fn record_account(record: &TokenOwnerRecord) -> AccountInfo {
    let address = get_token_owner_record_address(
        &program(),
        &record.realm,
        &record.governing_token_mint,
        &record.governing_token_owner,
    );
    let mut data = vec![];
    record.serialize(&mut data).unwrap();
    account(address, program(), false, data)
}

#[test]
fn threshold_of_zero_or_above_a_hundred_is_refused() {
    for percentage in [0u8, 101, 255] {
        assert_eq!(
            assert_is_valid_governance_config(&config(
                VoteThresholdPercentage::YesVote(percentage),
                0
            )),
            governance_error(GovernanceError::InvalidVoteThresholdPercentage)
        );
    }
}

#[test]
fn threshold_from_one_to_a_hundred_is_taken() {
    for percentage in [1u8, 50, 100] {
        assert_eq!(
            assert_is_valid_governance_config(&config(
                VoteThresholdPercentage::YesVote(percentage),
                0
            )),
            Ok(())
        );
    }
}

#[test]
fn quorum_threshold_and_cool_off_time_are_not_supported() {
    assert_eq!(
        assert_is_valid_governance_config(&config(VoteThresholdPercentage::Quorum(50), 0)),
        governance_error(GovernanceError::VoteThresholdPercentageTypeNotSupported)
    );
    assert_eq!(
        assert_is_valid_governance_config(&config(VoteThresholdPercentage::YesVote(50), 1)),
        governance_error(GovernanceError::ProposalCoolOffTimeNotSupported)
    );
    // the threshold is looked at first
    assert_eq!(
        assert_is_valid_governance_config(&config(VoteThresholdPercentage::YesVote(0), 1)),
        governance_error(GovernanceError::InvalidVoteThresholdPercentage)
    );
}

#[test]
fn realm_config_args() {
    let mut args = realm_args();
    assert_eq!(assert_valid_realm_config_args(&args), Ok(()));
    args.community_mint_max_vote_weight_source = MintMaxVoteWeightSource::SupplyFraction(1);
    assert_eq!(assert_valid_realm_config_args(&args), Ok(()));
    args.community_mint_max_vote_weight_source = MintMaxVoteWeightSource::SupplyFraction(0);
    assert_eq!(
        assert_valid_realm_config_args(&args),
        governance_error(GovernanceError::InvalidMaxVoteWeightSupplyFraction)
    );
    args.community_mint_max_vote_weight_source =
        MintMaxVoteWeightSource::SupplyFraction(SUPPLY_FRACTION_BASE + 1);
    assert_eq!(
        assert_valid_realm_config_args(&args),
        governance_error(GovernanceError::InvalidMaxVoteWeightSupplyFraction)
    );
    args.community_mint_max_vote_weight_source = MintMaxVoteWeightSource::Absolute(5);
    assert_eq!(
        assert_valid_realm_config_args(&args),
        governance_error(GovernanceError::MintMaxVoteWeightSourceNotSupported)
    );
}

#[test]
fn account_types() {
    assert!(is_realm_account_type(&GovernanceAccountType::Realm));
    assert!(!is_realm_account_type(&GovernanceAccountType::Governance));
    assert!(!is_realm_account_type(&GovernanceAccountType::Uninitialized));
    for kind in [
        GovernanceAccountType::Governance,
        GovernanceAccountType::ProgramGovernance,
        GovernanceAccountType::MintGovernance,
        GovernanceAccountType::TokenGovernance,
    ] {
        assert!(is_governance_v2_account_type(&kind));
    }
    assert!(!is_governance_v2_account_type(&GovernanceAccountType::Realm));
    assert!(!is_governance_v2_account_type(&GovernanceAccountType::VoteRecord));
}

#[test]
fn choice_weight_is_all_or_nothing() {
    let full = VoteChoice { rank: 0, weight_percentage: 100 };
    let none = VoteChoice { rank: 0, weight_percentage: 0 };
    let half = VoteChoice { rank: 0, weight_percentage: 50 };
    assert_eq!(full.get_choice_weight(1234), Ok(1234));
    assert_eq!(none.get_choice_weight(1234), Ok(0));
    assert_eq!(
        half.get_choice_weight(1234),
        governance_error(GovernanceError::InvalidVoteChoiceWeightPercentage)
    );
    assert_eq!(
        VoteChoice { rank: 0, weight_percentage: 101 }.get_choice_weight(1),
        governance_error(GovernanceError::InvalidVoteChoiceWeightPercentage)
    );
}

#[test]
fn create_realm_checks_the_account() {
    let (realm, info) = acme();
    assert_eq!(realm.account_type, GovernanceAccountType::Realm);
    assert_eq!(realm.community_mint, key(4));
    assert_eq!(realm.authority, Some(key(9)));
    assert_eq!(realm.name, "Acme");
    assert_eq!(realm.config.council_mint, None);
    assert_eq!(realm.config.min_community_weight_to_create_governance, 100);

    // a realm lives there already
    assert_eq!(
        create_realm(&program(), &info, "Acme".to_string(), &key(4), None, &key(9), &realm_args()),
        governance_error(GovernanceError::RealmAlreadyExists)
    );
    // another address than the one of the name
    let elsewhere = account(key(77), key(0), false, vec![]);
    assert_eq!(
        create_realm(
            &program(),
            &elsewhere,
            "Acme".to_string(),
            &key(4),
            None,
            &key(9),
            &realm_args()
        ),
        Err(ProgramError::InvalidSeeds)
    );
    // an unsupported vote weight source
    let empty = account(info.key, key(0), false, vec![]);
    let mut args = realm_args();
    args.community_mint_max_vote_weight_source = MintMaxVoteWeightSource::Absolute(1);
    assert_eq!(
        create_realm(&program(), &empty, "Acme".to_string(), &key(4), None, &key(9), &args),
        governance_error(GovernanceError::MintMaxVoteWeightSourceNotSupported)
    );
    // a council mint is asked for and none is handed over
    let mut args = realm_args();
    args.use_council_mint = true;
    assert_eq!(
        create_realm(&program(), &empty, "Acme".to_string(), &key(4), None, &key(9), &args),
        Err(ProgramError::NotEnoughAccountKeys)
    );
    let with_council =
        create_realm(&program(), &empty, "Acme".to_string(), &key(4), Some(key(5)), &key(9), &args)
            .unwrap();
    assert_eq!(with_council.config.council_mint, Some(key(5)));
}

#[test]
fn realm_is_read_off_its_account() {
    let (realm, info) = acme();
    assert_eq!(assert_is_valid_realm(&program(), &info), Ok(()));
    assert_eq!(get_realm_data(&program(), &info), Ok(realm.clone()));
    assert_eq!(get_account_type(&program(), &info), Ok(GovernanceAccountType::Realm));

    let empty = account(info.key, program(), false, vec![]);
    assert_eq!(
        get_realm_data(&program(), &empty),
        Err(ProgramError::Tools(GovernanceToolsError::AccountDoesNotExist))
    );
    assert_eq!(
        assert_account_exists(&program(), &empty),
        Err(ProgramError::Tools(GovernanceToolsError::AccountDoesNotExist))
    );
    let foreign = account(info.key, key(66), false, info.data.clone());
    assert_eq!(
        get_realm_data(&program(), &foreign),
        Err(ProgramError::Tools(GovernanceToolsError::InvalidAccountOwner))
    );
    assert_eq!(
        assert_is_valid_realm(&program(), &foreign),
        Err(ProgramError::Tools(GovernanceToolsError::InvalidAccountOwner))
    );
    let garbage = account(info.key, program(), false, vec![1, 2, 3]);
    assert_eq!(get_realm_data(&program(), &garbage), Err(ProgramError::BorshIoError));
    assert_eq!(assert_is_valid_realm(&program(), &garbage), Ok(()));
    let unknown_type = account(info.key, program(), false, vec![200]);
    assert_eq!(assert_is_valid_realm(&program(), &unknown_type), Err(ProgramError::BorshIoError));
    let mut other_type = info.data.clone();
    other_type[0] = 0;
    let uninitialized = account(info.key, program(), false, other_type);
    assert_eq!(get_realm_data(&program(), &uninitialized), Err(ProgramError::UninitializedAccount));
    assert_eq!(
        assert_is_valid_realm(&program(), &uninitialized),
        Err(ProgramError::Tools(GovernanceToolsError::InvalidAccountType))
    );

    assert_eq!(get_realm_data_for_authority(&program(), &info, &key(9)), Ok(realm.clone()));
    assert_eq!(
        get_realm_data_for_authority(&program(), &info, &key(8)),
        governance_error(GovernanceError::InvalidAuthorityForRealm)
    );
    assert_eq!(
        get_realm_data_for_governing_token_mint(&program(), &info, &key(4)),
        Ok(realm.clone())
    );
    assert_eq!(
        get_realm_data_for_governing_token_mint(&program(), &info, &key(5)),
        governance_error(GovernanceError::InvalidGoverningTokenMint)
    );
}

#[test]
fn realm_without_authority() {
    let (mut realm, info) = acme();
    let authority = account(key(9), key(0), true, vec![]);
    assert_eq!(
        set_realm_authority(
            &program(),
            &info.key,
            &mut realm,
            &authority,
            SetRealmAuthorityAction::Remove,
            None
        ),
        Ok(())
    );
    assert_eq!(realm.authority, None);
    let mut data = vec![];
    realm.clone().serialize(&mut data).unwrap();
    let info = account(info.key, program(), false, data);
    assert_eq!(
        get_realm_data_for_authority(&program(), &info, &key(9)),
        governance_error(GovernanceError::RealmHasNoAuthority)
    );
    assert_eq!(
        set_realm_config(&mut realm, &authority, &realm_args(), None),
        governance_error(GovernanceError::RealmHasNoAuthority)
    );
}

#[test]
fn realm_authority_is_set_by_the_authority_only() {
    let (mut realm, info) = acme();
    let before = realm.clone();
    let authority = account(key(9), key(0), true, vec![]);
    let unsigned = account(key(9), key(0), false, vec![]);
    let stranger = account(key(8), key(0), true, vec![]);
    let new_authority = account(key(10), key(0), false, vec![]);

    assert_eq!(
        set_realm_authority(
            &program(),
            &info.key,
            &mut realm,
            &unsigned,
            SetRealmAuthorityAction::SetUnchecked,
            Some(&new_authority)
        ),
        governance_error(GovernanceError::RealmAuthorityMustSign)
    );
    assert_eq!(
        set_realm_authority(
            &program(),
            &info.key,
            &mut realm,
            &stranger,
            SetRealmAuthorityAction::SetUnchecked,
            Some(&new_authority)
        ),
        governance_error(GovernanceError::InvalidAuthorityForRealm)
    );
    assert_eq!(
        set_realm_authority(
            &program(),
            &info.key,
            &mut realm,
            &authority,
            SetRealmAuthorityAction::SetUnchecked,
            None
        ),
        Err(ProgramError::NotEnoughAccountKeys)
    );
    // a checked change takes a governance of the realm only
    assert_eq!(
        set_realm_authority(
            &program(),
            &info.key,
            &mut realm,
            &authority,
            SetRealmAuthorityAction::SetChecked,
            Some(&new_authority)
        ),
        Err(ProgramError::Tools(GovernanceToolsError::AccountDoesNotExist))
    );
    assert_eq!(realm, before);
    assert_eq!(
        set_realm_authority(
            &program(),
            &info.key,
            &mut realm,
            &authority,
            SetRealmAuthorityAction::SetUnchecked,
            Some(&new_authority)
        ),
        Ok(())
    );
    assert_eq!(realm.authority, Some(key(10)));
}

#[test]
fn realm_config_is_set_by_the_authority_only() {
    let (mut realm, _) = acme();
    let authority = account(key(9), key(0), true, vec![]);
    let mut args = realm_args();
    args.min_community_weight_to_create_governance = 7;
    args.use_council_mint = true;
    assert_eq!(
        set_realm_config(&mut realm, &account(key(9), key(0), false, vec![]), &args, Some(key(5))),
        governance_error(GovernanceError::RealmAuthorityMustSign)
    );
    assert_eq!(set_realm_config(&mut realm, &authority, &args, Some(key(5))), Ok(()));
    assert_eq!(realm.config.min_community_weight_to_create_governance, 7);
    assert_eq!(realm.config.council_mint, Some(key(5)));
    // the council mint stays
    assert_eq!(
        set_realm_config(&mut realm, &authority, &args, Some(key(6))),
        governance_error(GovernanceError::RealmCouncilMintChangeIsNotSupported)
    );
    assert_eq!(
        set_realm_config(&mut realm, &authority, &realm_args(), None),
        governance_error(GovernanceError::RealmCouncilMintChangeIsNotSupported)
    );
    assert_eq!(realm.config.council_mint, Some(key(5)));
}

#[test]
fn governing_token_mint_of_a_realm() {
    let (mut realm, info) = acme();
    realm.config.council_mint = Some(key(5));
    assert_eq!(realm.assert_is_valid_governing_token_mint(&key(4)), Ok(()));
    assert_eq!(realm.assert_is_valid_governing_token_mint(&key(5)), Ok(()));
    assert_eq!(
        realm.assert_is_valid_governing_token_mint(&key(6)),
        governance_error(GovernanceError::InvalidGoverningTokenMint)
    );
    let holding = realm_governance::realm::get_governing_token_holding_address(
        &program(),
        &info.key,
        &key(4),
    );
    assert_eq!(
        realm.assert_is_valid_governing_token_mint_and_holding(
            &program(),
            &info.key,
            &key(4),
            &holding
        ),
        Ok(())
    );
    assert_eq!(
        realm.assert_is_valid_governing_token_mint_and_holding(
            &program(),
            &info.key,
            &key(5),
            &holding
        ),
        governance_error(GovernanceError::InvalidGoverningTokenHoldingAccount)
    );
    assert_eq!(
        realm.assert_is_valid_governing_token_mint_and_holding(
            &program(),
            &info.key,
            &key(6),
            &holding
        ),
        governance_error(GovernanceError::InvalidGoverningTokenMint)
    );
    assert_eq!(realm.asset_governing_tokens_deposits_allowed(&key(4)), Ok(()));
    realm.config.use_community_voter_weight_addin = true;
    assert_eq!(
        realm.asset_governing_tokens_deposits_allowed(&key(4)),
        governance_error(GovernanceError::GoverningTokenDepositsNotAllowed)
    );
    assert_eq!(realm.asset_governing_tokens_deposits_allowed(&key(5)), Ok(()));
}

#[test]
fn first_deposit_creates_the_record_and_later_ones_add_to_it() {
    let first = deposit_governing_tokens(None, &key(2), &key(4), &key(3), true, 600).unwrap();
    assert_eq!(first, create_token_owner_record(&key(2), &key(4), &key(3), 600));
    assert_eq!(first.governing_token_deposit_amount, 600);
    assert_eq!(first.account_type, GovernanceAccountType::TokenOwnerRecord);
    let second =
        deposit_governing_tokens(Some(first), &key(2), &key(4), &key(3), false, 400).unwrap();
    assert_eq!(second.governing_token_deposit_amount, 1000);
    assert_eq!(
        (second.realm, second.governing_token_mint, second.governing_token_owner),
        (first.realm, first.governing_token_mint, first.governing_token_owner)
    );
    assert_eq!(
        get_token_owner_record_address(&program(), &second.realm, &key(4), &key(3)),
        get_token_owner_record_address(&program(), &first.realm, &key(4), &key(3))
    );
}

#[test]
fn first_deposit_needs_the_owners_signature() {
    assert_eq!(
        deposit_governing_tokens(None, &key(2), &key(4), &key(3), false, 600),
        governance_error(GovernanceError::GoverningTokenOwnerMustSign)
    );
}

#[test]
fn deposit_does_not_wrap() {
    let record = create_token_owner_record(&key(2), &key(4), &key(3), u64::MAX - 1);
    assert_eq!(
        deposit_governing_tokens(Some(record), &key(2), &key(4), &key(3), true, 2),
        governance_error(GovernanceError::NumericalOverflow)
    );
    let full = deposit_governing_tokens(Some(record), &key(2), &key(4), &key(3), true, 1).unwrap();
    assert_eq!(full.governing_token_deposit_amount, u64::MAX);
}

#[test]
fn withdrawal_fails_while_votes_are_outstanding() {
    for votes in [1u32, 2, u32::MAX] {
        let mut record = create_token_owner_record(&key(2), &key(4), &key(3), 1000);
        record.unrelinquished_votes_count = votes;
        let before = record;
        assert_eq!(
            record.withdraw_governing_tokens(1),
            governance_error(GovernanceError::AllVotesMustBeRelinquishedToWithdrawGoverningTokens)
        );
        assert_eq!(record, before);
        assert_eq!(
            record.assert_can_withdraw_governing_tokens(),
            governance_error(GovernanceError::AllVotesMustBeRelinquishedToWithdrawGoverningTokens)
        );
    }
}

#[test]
fn withdrawal_takes_no_more_than_was_deposited() {
    let mut record = create_token_owner_record(&key(2), &key(4), &key(3), 1000);
    assert_eq!(
        record.withdraw_governing_tokens(1001),
        governance_error(GovernanceError::NumericalOverflow)
    );
    assert_eq!(record.governing_token_deposit_amount, 1000);
    assert_eq!(record.withdraw_governing_tokens(400), Ok(()));
    assert_eq!(record.governing_token_deposit_amount, 600);
    assert_eq!(record.withdraw_governing_tokens(600), Ok(()));
    assert_eq!(record.governing_token_deposit_amount, 0);
}

#[test]
fn vote_is_cast_once_and_relinquished_once() {
    let mut owner = create_token_owner_record(&key(2), &key(4), &key(3), 1000);
    let owner_key = get_token_owner_record_address(&program(), &key(2), &key(4), &key(3));
    let proposal = key(30);
    let vote_key = get_vote_record_address(&program(), &proposal, &owner_key);
    let empty = account(vote_key, key(0), false, vec![]);
    let vote = Vote::Approve(vec![VoteChoice { rank: 0, weight_percentage: 100 }]);

    let mut record =
        cast_vote(&program(), &empty, &proposal, &owner_key, &mut owner, vote.clone(), 1000)
            .unwrap();
    assert_eq!(record.account_type, GovernanceAccountType::VoteRecord);
    assert_eq!(record.proposal, proposal);
    assert_eq!(record.governing_token_owner, key(3));
    assert_eq!(record.voter_weight, 1000);
    assert_eq!(record.vote, vote);
    assert!(!record.is_relinquished);
    assert_eq!((owner.unrelinquished_votes_count, owner.total_votes_count), (1, 1));

    // the weight is the one at the time of the vote
    owner.governing_token_deposit_amount = 5;
    assert_eq!(record.voter_weight, 1000);

    // a second vote by the same owner on the same proposal
    let mut data = vec![];
    record.clone().serialize(&mut data).unwrap();
    let taken = account(vote_key, program(), false, data);
    let before = owner;
    assert_eq!(
        cast_vote(&program(), &taken, &proposal, &owner_key, &mut owner, Vote::Deny, 5),
        governance_error(GovernanceError::VoteAlreadyExists)
    );
    assert_eq!(owner, before);
    assert_eq!(
        get_vote_record_data_for_proposal_and_token_owner(&program(), &taken, &proposal, &key(3)),
        Ok(record.clone())
    );
    assert_eq!(
        get_vote_record_data_for_proposal_and_token_owner(&program(), &taken, &key(31), &key(3)),
        governance_error(GovernanceError::InvalidProposalForVoterRecord)
    );
    assert_eq!(
        get_vote_record_data_for_proposal_and_token_owner(&program(), &taken, &proposal, &key(4)),
        governance_error(GovernanceError::InvalidGoverningTokenOwnerForVoteRecord)
    );

    assert_eq!(record.assert_can_relinquish_vote(), Ok(()));
    assert_eq!(relinquish_vote(&mut record, &mut owner), Ok(()));
    assert!(record.is_relinquished);
    assert_eq!((owner.unrelinquished_votes_count, owner.total_votes_count), (0, 1));

    // the second time nothing changes
    let (record_before, owner_before) = (record.clone(), owner);
    assert_eq!(
        relinquish_vote(&mut record, &mut owner),
        governance_error(GovernanceError::VoteAlreadyRelinquished)
    );
    assert_eq!((record.clone(), owner), (record_before, owner_before));
    assert_eq!(
        record.assert_can_relinquish_vote(),
        governance_error(GovernanceError::VoteAlreadyRelinquished)
    );
}

#[test]
fn vote_at_another_address_or_with_a_partial_weight_is_refused() {
    let mut owner = create_token_owner_record(&key(2), &key(4), &key(3), 1000);
    let owner_key = get_token_owner_record_address(&program(), &key(2), &key(4), &key(3));
    let proposal = key(30);
    let vote_key = get_vote_record_address(&program(), &proposal, &owner_key);
    let elsewhere = account(key(99), key(0), false, vec![]);
    assert_eq!(
        cast_vote(&program(), &elsewhere, &proposal, &owner_key, &mut owner, Vote::Deny, 1),
        governance_error(GovernanceError::InvalidVoteRecordAccountAddress)
    );
    let empty = account(vote_key, key(0), false, vec![]);
    let partial = Vote::Approve(vec![
        VoteChoice { rank: 0, weight_percentage: 100 },
        VoteChoice { rank: 0, weight_percentage: 30 },
    ]);
    assert_eq!(
        cast_vote(&program(), &empty, &proposal, &owner_key, &mut owner, partial, 1),
        governance_error(GovernanceError::InvalidVoteChoiceWeightPercentage)
    );
    owner.total_votes_count = u32::MAX;
    assert_eq!(
        cast_vote(&program(), &empty, &proposal, &owner_key, &mut owner, Vote::Abstain, 1),
        governance_error(GovernanceError::NumericalOverflow)
    );
    assert_eq!(owner.unrelinquished_votes_count, 0);
}

fn queued(instructions: usize) -> ProposalTransaction {
    let proposal = key(30);
    let address = get_proposal_transaction_address(&program(), &proposal, &[2], &[1, 0]);
    let empty = account(address, key(0), false, vec![]);
    let list = (0..instructions)
        .map(|i| InstructionData { program_id: key(40), accounts: vec![], data: vec![i as u8] })
        .collect();
    insert_transaction(&program(), &proposal, &empty, 2, 1, 10, list).unwrap()
}

#[test]
fn transaction_index_is_used_once_per_option() {
    let proposal = key(30);
    let transaction = queued(1);
    assert_eq!(transaction.account_type, GovernanceAccountType::ProposalTransaction);
    assert_eq!((transaction.option_index, transaction.transaction_index), (2, 1));
    assert_eq!(transaction.hold_up_time, 10);
    assert_eq!(transaction.executed_at, None);
    assert_eq!(transaction.execution_status, TransactionExecutionStatus::Unexecuted);

    let address = find_proposal_transaction_address(&program(), &proposal, 2, 1).unwrap();
    assert_eq!(address, get_proposal_transaction_address(&program(), &proposal, &[2], &[1, 0]));
    assert_ne!(address, find_proposal_transaction_address(&program(), &proposal, 2, 256).unwrap());
    let mut data = vec![];
    transaction.clone().serialize(&mut data).unwrap();
    let taken = account(address, program(), false, data);
    assert_eq!(
        insert_transaction(&program(), &proposal, &taken, 2, 1, 10, vec![]),
        governance_error(GovernanceError::TransactionAlreadyExists)
    );
    assert_eq!(
        insert_transaction(&program(), &proposal, &taken, 2, 2, 10, vec![]),
        governance_error(GovernanceError::InvalidProposalTransactionAccountAddress)
    );
    assert_eq!(
        get_proposal_transaction_data_for_proposal(&program(), &taken, &proposal),
        Ok(transaction)
    );
    assert_eq!(
        get_proposal_transaction_data_for_proposal(&program(), &taken, &key(31)),
        governance_error(GovernanceError::InvalidProposalForProposalTransaction)
    );
}

#[test]
fn transaction_waits_for_the_hold_up_time() {
    let mut transaction = queued(2);
    let before = transaction.clone();
    assert_eq!(
        transaction.begin_execution(1000, 1009),
        governance_error(GovernanceError::CannotExecuteTransactionWithinHoldUpTime)
    );
    assert_eq!(transaction, before);
    assert_eq!(
        transaction.assert_can_execute(i64::MAX, 0),
        governance_error(GovernanceError::CannotExecuteTransactionWithinHoldUpTime)
    );
    assert_eq!(transaction.begin_execution(1000, 1010), Ok(ExecutionStep::Invoke(0)));
    assert_eq!(transaction, before);
}

#[test]
fn transaction_runs_its_instructions_in_order() {
    let mut transaction = queued(3);
    assert_eq!(transaction.begin_execution(1000, 2000), Ok(ExecutionStep::Invoke(0)));
    assert_eq!(transaction.after_instruction(0, true, 2000), Ok(ExecutionStep::Invoke(1)));
    assert_eq!(transaction.after_instruction(1, true, 2000), Ok(ExecutionStep::Invoke(2)));
    assert_eq!(transaction.executed_at, None);
    assert_eq!(transaction.after_instruction(2, true, 2000), Ok(ExecutionStep::Finished));
    assert_eq!(transaction.executed_at, Some(2000));
    assert_eq!(transaction.execution_status, TransactionExecutionStatus::Success);

    // executed once
    let before = transaction.clone();
    assert_eq!(
        transaction.begin_execution(1000, 3000),
        governance_error(GovernanceError::TransactionAlreadyExecuted)
    );
    assert_eq!(
        transaction.after_instruction(0, true, 3000),
        governance_error(GovernanceError::TransactionAlreadyExecuted)
    );
    assert_eq!(transaction, before);
}

#[test]
fn transaction_stops_at_the_first_failure() {
    let mut transaction = queued(3);
    assert_eq!(transaction.begin_execution(1000, 2000), Ok(ExecutionStep::Invoke(0)));
    assert_eq!(transaction.after_instruction(0, false, 2001), Ok(ExecutionStep::Finished));
    assert_eq!(transaction.executed_at, Some(2001));
    assert_eq!(transaction.execution_status, TransactionExecutionStatus::Error);
}

#[test]
fn transaction_without_instructions_succeeds_at_once() {
    let mut transaction = queued(0);
    assert_eq!(transaction.begin_execution(1000, 1010), Ok(ExecutionStep::Finished));
    assert_eq!(transaction.executed_at, Some(1010));
    assert_eq!(transaction.execution_status, TransactionExecutionStatus::Success);
    let mut other = queued(1);
    assert_eq!(other.after_instruction(1, true, 0), Err(ProgramError::InvalidArgument));
}

fn governance_account(governance: &Governance, address: Pubkey) -> AccountInfo {
    let mut data = vec![];
    governance.serialize(&mut data).unwrap();
    account(address, program(), true, data)
}

#[test]
fn governance_is_created_by_the_realm_authority() {
    let (_, realm_info) = acme();
    let governed = key(50);
    let address = get_mint_governance_address(&program(), &realm_info.key, &governed);
    let empty = account(address, key(0), false, vec![]);
    let no_record = account(key(60), key(0), false, vec![]);
    let authority = account(key(9), key(0), true, vec![]);
    let valid = config(VoteThresholdPercentage::YesVote(60), 0);

    let governance = create_governance(
        &program(),
        &realm_info,
        &empty,
        GovernanceAccountType::MintGovernance,
        &governed,
        valid,
        &no_record,
        &authority,
        None,
        None,
    )
    .unwrap();
    assert_eq!(governance.account_type, GovernanceAccountType::MintGovernance);
    assert_eq!(governance.realm, realm_info.key);
    assert_eq!(governance.governed_account, governed);
    assert_eq!(governance.config, valid);
    assert_eq!(governance.proposals_count, 0);
    assert_eq!(governance.get_governance_address_seeds().unwrap()[0], b"mint-governance");

    for (percentage, expected) in [
        (0u8, governance_error(GovernanceError::InvalidVoteThresholdPercentage)),
        (101, governance_error(GovernanceError::InvalidVoteThresholdPercentage)),
        (1, Ok(())),
        (100, Ok(())),
    ] {
        let result = create_governance(
            &program(),
            &realm_info,
            &empty,
            GovernanceAccountType::MintGovernance,
            &governed,
            config(VoteThresholdPercentage::YesVote(percentage), 0),
            &no_record,
            &authority,
            None,
            None,
        );
        assert_eq!(result.map(|_| ()), expected);
    }
    assert_eq!(
        assert_valid_create_governance_args(&program(), &valid, &realm_info),
        Ok(())
    );
    assert_eq!(
        assert_valid_create_governance_args(&program(), &valid, &empty),
        Err(ProgramError::Tools(GovernanceToolsError::AccountDoesNotExist))
    );

    // the authority of the realm must have signed
    let unsigned = account(key(9), key(0), false, vec![]);
    assert_eq!(
        create_governance(
            &program(),
            &realm_info,
            &empty,
            GovernanceAccountType::MintGovernance,
            &governed,
            valid,
            &no_record,
            &unsigned,
            None,
            None
        ),
        governance_error(GovernanceError::RealmAuthorityMustSign)
    );
    // the account must be new, and the one derived for the kind
    let taken = governance_account(&governance, address);
    assert_eq!(
        create_governance(
            &program(),
            &realm_info,
            &taken,
            GovernanceAccountType::MintGovernance,
            &governed,
            valid,
            &no_record,
            &authority,
            None,
            None
        ),
        Err(ProgramError::Tools(GovernanceToolsError::AccountAlreadyInitialized))
    );
    assert_eq!(
        create_governance(
            &program(),
            &realm_info,
            &empty,
            GovernanceAccountType::TokenGovernance,
            &governed,
            valid,
            &no_record,
            &authority,
            None,
            None
        ),
        Err(ProgramError::InvalidSeeds)
    );
    assert_eq!(
        create_governance(
            &program(),
            &realm_info,
            &empty,
            GovernanceAccountType::Realm,
            &governed,
            valid,
            &no_record,
            &authority,
            None,
            None
        ),
        Err(ProgramError::Tools(GovernanceToolsError::InvalidAccountType))
    );

    assert_eq!(assert_is_valid_governance(&program(), &taken), Ok(()));
    assert_eq!(get_governance_data(&program(), &taken), Ok(governance));
    assert_eq!(get_governance_data_for_realm(&program(), &taken, &realm_info.key), Ok(governance));
    assert_eq!(
        get_governance_data_for_realm(&program(), &taken, &key(3)),
        governance_error(GovernanceError::InvalidRealmForGovernance)
    );
    assert_eq!(
        assert_is_valid_governance(&program(), &realm_info),
        Err(ProgramError::Tools(GovernanceToolsError::InvalidAccountType))
    );

    // a checked change of the realm's authority takes this governance
    let (mut realm, _) = acme();
    assert_eq!(
        set_realm_authority(
            &program(),
            &realm_info.key,
            &mut realm,
            &authority,
            SetRealmAuthorityAction::SetChecked,
            Some(&taken)
        ),
        Ok(())
    );
    assert_eq!(realm.authority, Some(address));

    // the governance changes its own config
    let changed = config(VoteThresholdPercentage::YesVote(70), 0);
    assert_eq!(set_governance_config(&program(), &taken, changed).unwrap().config, changed);
    let mut unsigned_governance = taken.clone();
    unsigned_governance.is_signer = false;
    assert_eq!(
        set_governance_config(&program(), &unsigned_governance, changed),
        governance_error(GovernanceError::GovernancePdaMustSign)
    );
    assert_eq!(
        set_governance_config(&program(), &taken, config(VoteThresholdPercentage::YesVote(0), 0)),
        governance_error(GovernanceError::InvalidVoteThresholdPercentage)
    );
}

#[test]
fn governance_is_created_by_a_token_owner_with_enough_weight() {
    let (realm, realm_info) = acme();
    let governed = key(50);
    let address = get_governance_address(&program(), &realm_info.key, &governed);
    let empty = account(address, key(0), false, vec![]);
    let valid = config(VoteThresholdPercentage::YesVote(60), 0);
    let owner = account(key(3), key(0), true, vec![]);
    let realm_config = account(key(70), key(0), false, vec![]);

    let rich = create_token_owner_record(&realm_info.key, &key(4), &key(3), 100);
    let make = |record: &TokenOwnerRecord, authority: &AccountInfo, config: Option<&AccountInfo>| {
        create_governance(
            &program(),
            &realm_info,
            &empty,
            GovernanceAccountType::Governance,
            &governed,
            valid,
            &record_account(record),
            authority,
            config,
            None,
        )
        .map(|_| ())
    };
    assert_eq!(make(&rich, &owner, Some(&realm_config)), Ok(()));
    assert_eq!(make(&rich, &owner, None), Err(ProgramError::NotEnoughAccountKeys));

    let poor = create_token_owner_record(&realm_info.key, &key(4), &key(3), 99);
    assert_eq!(
        make(&poor, &owner, Some(&realm_config)),
        governance_error(GovernanceError::NotEnoughTokensToCreateGovernance)
    );
    let unsigned = account(key(3), key(0), false, vec![]);
    assert_eq!(
        make(&rich, &unsigned, Some(&realm_config)),
        governance_error(GovernanceError::GoverningTokenOwnerOrDelegateMustSign)
    );
    let mut delegated = rich;
    delegated.governance_delegate = Some(key(8));
    let delegate = account(key(8), key(0), true, vec![]);
    assert_eq!(make(&delegated, &delegate, Some(&realm_config)), Ok(()));
    assert_eq!(
        make(&rich, &delegate, Some(&realm_config)),
        governance_error(GovernanceError::GoverningTokenOwnerOrDelegateMustSign)
    );
    let foreign = create_token_owner_record(&key(12), &key(4), &key(3), 100);
    assert_eq!(
        make(&foreign, &owner, Some(&realm_config)),
        governance_error(GovernanceError::InvalidRealmForTokenOwnerRecord)
    );
    assert_eq!(
        get_token_owner_record_data_for_realm(&program(), &record_account(&rich), &realm_info.key),
        Ok(rich)
    );
    let other_mint = create_token_owner_record(&realm_info.key, &key(6), &key(3), 100);
    assert_eq!(
        make(&other_mint, &owner, Some(&realm_config)),
        governance_error(GovernanceError::InvalidGoverningTokenMint)
    );
    assert_eq!(rich.resolve_voter_weight(&realm, None), Ok(100));
    let mut with_addin = realm.clone();
    with_addin.config.use_community_voter_weight_addin = true;
    assert_eq!(rich.resolve_voter_weight(&with_addin, Some(7)), Ok(7));
    assert_eq!(
        rich.resolve_voter_weight(&with_addin, None),
        Err(ProgramError::NotEnoughAccountKeys)
    );
    assert_eq!(rich.assert_can_create_governance(&realm, 100), Ok(()));
}

#[test]
fn council_record_needs_the_realms_minimum_weight_too() {
    let (mut realm, mut realm_info) = acme();
    realm.config.council_mint = Some(key(5));
    let minimum = realm.config.min_community_weight_to_create_governance;
    assert_eq!(minimum, 100);
    let mut data = vec![];
    realm.clone().serialize(&mut data).unwrap();
    realm_info.data = data;

    let council = |amount: u64| create_token_owner_record(&realm_info.key, &key(5), &key(3), amount);
    for weight in [0u64, 1, 99] {
        assert_eq!(
            council(weight).assert_can_create_governance(&realm, weight),
            governance_error(GovernanceError::NotEnoughTokensToCreateGovernance)
        );
    }
    assert_eq!(council(100).assert_can_create_governance(&realm, 100), Ok(()));
    assert_eq!(council(100).assert_can_create_governance(&realm, u64::MAX), Ok(()));

    // and so through the check of the one who creates a governance
    let owner = account(key(3), key(0), true, vec![]);
    let realm_config = account(key(70), key(0), false, vec![]);
    let may_create = |record: &TokenOwnerRecord| {
        realm.assert_create_authority_can_create_governance(
            &program(),
            &realm_info.key,
            &record_account(record),
            &owner,
            Some(&realm_config),
            None,
        )
    };
    assert_eq!(
        may_create(&council(1)),
        governance_error(GovernanceError::NotEnoughTokensToCreateGovernance)
    );
    assert_eq!(
        may_create(&council(99)),
        governance_error(GovernanceError::NotEnoughTokensToCreateGovernance)
    );
    assert_eq!(may_create(&council(100)), Ok(()));
}

#[test]
fn governance_addresses_differ_by_kind() {
    let (realm, governed) = (key(2), key(50));
    let addresses = [
        get_governance_address(&program(), &realm, &governed),
        get_program_governance_address(&program(), &realm, &governed),
        get_mint_governance_address(&program(), &realm, &governed),
        get_token_governance_address(&program(), &realm, &governed),
    ];
    for i in 0..4 {
        for j in 0..i {
            assert_ne!(addresses[i], addresses[j]);
        }
    }
}
