use realm_governance::enums::{
    GovernanceAccountType, MintMaxVoteWeightSource, TransactionExecutionStatus,
    VoteThresholdPercentage, VoteTipping,
};
use realm_governance::governance::{Governance, GovernanceConfig};
use realm_governance::proposal_transaction::{
    AccountMetaData, InstructionData, ProposalTransaction,
};
use realm_governance::pubkey::Pubkey;
use realm_governance::realm::{Realm, RealmConfig};
use realm_governance::token_owner_record::create_token_owner_record;
use realm_governance::vote_record::{Vote, VoteChoice, VoteRecord};

fn key(n: u8) -> Pubkey {
    Pubkey::new_from_array([n; 32])
}

/// A key as borsh writes one: its bytes.
fn raw(key: Pubkey) -> [u8; 32] {
    key.to_bytes()
}

#[test]
fn realm_layout_is_borsh() {
    let realm = Realm {
        account_type: GovernanceAccountType::Realm,
        community_mint: key(4),
        config: RealmConfig {
            use_community_voter_weight_addin: true,
            use_max_community_voter_weight_addin: false,
            reserved: [1, 2, 3, 4, 5, 6],
            min_community_weight_to_create_governance: 0x0102_0304_0506_0708,
            community_mint_max_vote_weight_source: MintMaxVoteWeightSource::SupplyFraction(77),
            council_mint: None,
        },
        reserved: [9; 6],
        voting_proposal_count: 0x1234,
        authority: Some(key(9)),
        name: "Acmé".to_string(),
        reserved_v2: [3; 128],
    };
    let expected = borsh::to_vec(&(
        1u8,
        raw(key(4)),
        (true, false, [1u8, 2, 3, 4, 5, 6], 0x0102_0304_0506_0708u64, (0u8, 77u64), None::<[u8; 32]>),
        [9u8; 6],
        0x1234u16,
        Some(raw(key(9))),
        "Acmé".to_string(),
        [3u8; 128],
    ))
    .unwrap();
    let mut bytes = vec![];
    realm.clone().serialize(&mut bytes).unwrap();
    assert_eq!(bytes, expected);
    assert_eq!(Realm::deserialize(&expected), Some(realm.clone()));
    // the name is five bytes long: the account is larger than this realm by the two keys it lacks
    assert_eq!(realm.get_max_size(), Some(5 + 264));
    assert_eq!(bytes.len() + 32, 5 + 264);
}

#[test]
fn governance_layout_is_borsh() {
    let governance = Governance {
        account_type: GovernanceAccountType::TokenGovernance,
        realm: key(2),
        governed_account: key(50),
        proposals_count: 0x0a0b_0c0d,
        config: GovernanceConfig {
            vote_threshold_percentage: VoteThresholdPercentage::Quorum(33),
            min_community_weight_to_create_proposal: 5,
            min_transaction_hold_up_time: 10,
            max_voting_time: 100,
            vote_tipping: VoteTipping::Disabled,
            proposal_cool_off_time: 4,
            min_council_weight_to_create_proposal: u64::MAX,
        },
        reserved: [0; 6],
        voting_proposal_count: 2,
        reserved_v2: [0; 128],
    };
    let expected = borsh::to_vec(&(
        10u8,
        raw(key(2)),
        raw(key(50)),
        0x0a0b_0c0du32,
        ((1u8, 33u8), 5u64, 10u32, 100u32, 2u8, 4u32, u64::MAX),
        [0u8; 6],
        2u16,
        [0u8; 128],
    ))
    .unwrap();
    let mut bytes = vec![];
    governance.serialize(&mut bytes).unwrap();
    assert_eq!(bytes, expected);
    assert_eq!(Governance::deserialize(&expected), Some(governance));
}

#[test]
fn token_owner_record_layout_is_borsh() {
    let mut record = create_token_owner_record(&key(2), &key(4), &key(3), 1_000);
    record.unrelinquished_votes_count = 3;
    record.total_votes_count = 8;
    record.outstanding_proposal_count = 1;
    record.governance_delegate = Some(key(8));
    let expected = borsh::to_vec(&(
        2u8,
        raw(key(2)),
        raw(key(4)),
        raw(key(3)),
        1_000u64,
        3u32,
        8u32,
        1u8,
        [0u8; 7],
        Some(raw(key(8))),
        [0u8; 128],
    ))
    .unwrap();
    let mut bytes = vec![];
    record.serialize(&mut bytes).unwrap();
    assert_eq!(bytes, expected);
}

#[test]
fn vote_record_layout_is_borsh() {
    let record = VoteRecord {
        account_type: GovernanceAccountType::VoteRecord,
        proposal: key(30),
        governing_token_owner: key(3),
        is_relinquished: true,
        voter_weight: 42,
        vote: Vote::Approve(vec![
            VoteChoice { rank: 0, weight_percentage: 100 },
            VoteChoice { rank: 5, weight_percentage: 0 },
        ]),
        reserved_v2: [0; 8],
    };
    let expected = borsh::to_vec(&(
        7u8,
        raw(key(30)),
        raw(key(3)),
        true,
        42u64,
        (0u8, vec![(0u8, 100u8), (5u8, 0u8)]),
        [0u8; 8],
    ))
    .unwrap();
    let mut bytes = vec![];
    record.clone().serialize(&mut bytes).unwrap();
    assert_eq!(bytes, expected);
    assert_eq!(VoteRecord::deserialize(&expected), Some(record.clone()));

    let veto = VoteRecord { vote: Vote::Veto, ..record };
    let expected =
        borsh::to_vec(&(7u8, raw(key(30)), raw(key(3)), true, 42u64, 3u8, [0u8; 8])).unwrap();
    let mut bytes = vec![];
    veto.serialize(&mut bytes).unwrap();
    assert_eq!(bytes, expected);
}

#[test]
fn proposal_transaction_layout_is_borsh() {
    let transaction = ProposalTransaction {
        account_type: GovernanceAccountType::ProposalTransaction,
        proposal: key(30),
        option_index: 2,
        transaction_index: 0x0102,
        hold_up_time: 10,
        instructions: vec![
            InstructionData {
                program_id: key(40),
                accounts: vec![
                    AccountMetaData { pubkey: key(41), is_signer: true, is_writable: false },
                    AccountMetaData { pubkey: key(42), is_signer: false, is_writable: true },
                ],
                data: vec![1, 2, 3],
            },
            InstructionData { program_id: key(43), accounts: vec![], data: vec![] },
        ],
        executed_at: Some(-2),
        execution_status: TransactionExecutionStatus::Error,
        reserved_v2: [0; 8],
    };
    let expected = borsh::to_vec(&(
        8u8,
        raw(key(30)),
        2u8,
        0x0102u16,
        10u32,
        vec![
            (
                raw(key(40)),
                vec![(raw(key(41)), true, false), (raw(key(42)), false, true)],
                vec![1u8, 2, 3],
            ),
            (raw(key(43)), vec![], vec![]),
        ],
        Some(-2i64),
        2u8,
        [0u8; 8],
    ))
    .unwrap();
    let mut bytes = vec![];
    transaction.clone().serialize(&mut bytes).unwrap();
    assert_eq!(bytes, expected);
    assert_eq!(ProposalTransaction::deserialize(&expected), Some(transaction.clone()));
    assert_eq!(transaction.get_max_size(), Some(expected.len()));
}
