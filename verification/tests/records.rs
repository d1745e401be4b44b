use std::str::FromStr;

use base64::Engine;
use realm_governance::enums::{
    GovernanceAccountType, MintMaxVoteWeightSource, TransactionExecutionStatus,
    VoteThresholdPercentage, VoteTipping,
};
use realm_governance::error::ProgramError;
use realm_governance::governance::{Governance, GovernanceConfig};
use realm_governance::identity::Identity;
use realm_governance::proposal_transaction::{
    AccountMetaData, InstructionData, ProposalTransaction,
};
use realm_governance::pubkey::Pubkey;
use realm_governance::realm::{Realm, RealmConfig};
use realm_governance::token_owner_record::{create_token_owner_record, TokenOwnerRecord};
use realm_governance::vote_record::{Vote, VoteChoice, VoteRecord};

fn new_unique() -> Pubkey {
    Pubkey::new_from_array(solana_program::pubkey::Pubkey::new_unique().to_bytes())
}

fn instruction_data_from(instruction: solana_program::instruction::Instruction) -> InstructionData {
    InstructionData {
        program_id: Pubkey::new_from_array(instruction.program_id.to_bytes()),
        accounts: instruction
            .accounts
            .iter()
            .map(|a| AccountMetaData {
                pubkey: Pubkey::new_from_array(a.pubkey.to_bytes()),
                is_signer: a.is_signer,
                is_writable: a.is_writable,
            })
            .collect(),
        data: instruction.data,
    }
}

fn instruction_from(instruction: &InstructionData) -> solana_program::instruction::Instruction {
    solana_program::instruction::Instruction {
        program_id: solana_program::pubkey::Pubkey::new_from_array(instruction.program_id.to_bytes()),
        accounts: instruction
            .accounts
            .iter()
            .map(|a| solana_program::instruction::AccountMeta {
                pubkey: solana_program::pubkey::Pubkey::new_from_array(a.pubkey.to_bytes()),
                is_signer: a.is_signer,
                is_writable: a.is_writable,
            })
            .collect(),
        data: instruction.data.clone(),
    }
}

fn create_test_account_meta_data() -> AccountMetaData {
    AccountMetaData { pubkey: new_unique(), is_signer: true, is_writable: false }
}

fn create_test_instruction_data() -> Vec<InstructionData> {
    vec![InstructionData {
        program_id: new_unique(),
        accounts: vec![
            create_test_account_meta_data(),
            create_test_account_meta_data(),
            create_test_account_meta_data(),
        ],
        data: vec![1, 2, 3],
    }]
}

fn create_test_proposal_transaction() -> ProposalTransaction {
    ProposalTransaction {
        account_type: GovernanceAccountType::ProposalTransaction,
        proposal: new_unique(),
        option_index: 0,
        transaction_index: 1,
        hold_up_time: 10,
        instructions: create_test_instruction_data(),
        executed_at: Some(100),
        execution_status: TransactionExecutionStatus::Success,
        reserved_v2: [0; 8],
    }
}

fn to_vec(transaction: &ProposalTransaction) -> Vec<u8> {
    let mut bytes = vec![];
    transaction.clone().serialize(&mut bytes).unwrap();
    bytes
}

#[test]
fn test_account_meta_data_size() {
    let account_meta_data = create_test_account_meta_data();
    let mut bytes = vec![];
    account_meta_data.serialize(&mut bytes).unwrap();
    let size = bytes.len();

    assert_eq!(34, size);
}

#[test]
fn test_proposal_transaction_max_size() {
    // Arrange
    let proposal_transaction = create_test_proposal_transaction();
    let size = to_vec(&proposal_transaction).len();

    // Act, Assert
    assert_eq!(proposal_transaction.get_max_size(), Some(size));
}

#[test]
fn test_empty_proposal_transaction_max_size() {
    // Arrange
    let mut proposal_transaction = create_test_proposal_transaction();
    proposal_transaction.instructions[0].data = vec![];
    proposal_transaction.instructions[0].accounts = vec![];

    let size = to_vec(&proposal_transaction).len();

    // Act, Assert
    assert_eq!(proposal_transaction.get_max_size(), Some(size));
}

#[test]
fn test_upgrade_instruction_serialization() {
    // Arrange
    let program_address =
        solana_program::pubkey::Pubkey::from_str("Hita5Lun87S4MADAF4vGoWEgFm5DyuVqxoWzzqYxS3AD")
            .unwrap();
    let buffer_address =
        solana_program::pubkey::Pubkey::from_str("5XqXkgJGAUwrUHBkxbKpYMGqsRoQLfyqRbYUEkjNY6hL")
            .unwrap();
    let governance =
        solana_program::pubkey::Pubkey::from_str("FqSReK9R8QxvFZgdrAwGT3gsYp1ZGfiFjS8xrzyyadn3")
            .unwrap();

    let upgrade_instruction = solana_program::bpf_loader_upgradeable::upgrade(
        &program_address,
        &buffer_address,
        &governance,
        &governance,
    );

    // Act
    let instruction_data: InstructionData = instruction_data_from(upgrade_instruction.clone());
    let mut instruction_bytes = vec![];
    instruction_data.serialize(&mut instruction_bytes).unwrap();

    // base64 encoded message is accepted as the input in the UI
    let base64 = base64::engine::general_purpose::STANDARD.encode(instruction_bytes.clone());

    // Assert
    let instruction =
        instruction_from(&InstructionData::deserialize(&instruction_bytes[..]).unwrap());

    assert_eq!(upgrade_instruction, instruction);

    assert_eq!(base64,"Aqj2kU6IobDiEBU+92OuKwDCuT0WwSTSwFN6EASAAAAHAAAAchkHXTU9jF+rKpILT6dzsVyNI9NsQy9cab+GGvdwNn0AAfh2HVruy2YibpgcQUmJf5att5YdPXSv1k2pRAKAfpSWAAFDVQuXWos2urmegSPblI813GlTm7CJ/8rv+9yzNE3yfwAB3Gw+apCyfrRNqJ6f1160Htkx+uYZT6FIILQ3WzNA4KwAAQan1RcZLFxRIYzJTD1K8X9Y2u4Im6H9ROPb2YoAAAAAAAAGp9UXGMd0yShWY5hpHV62i164o5tLbVxzVVshAAAAAAAA3Gw+apCyfrRNqJ6f1160Htkx+uYZT6FIILQ3WzNA4KwBAAQAAAADAAAA");
}

fn test_realm() -> Realm {
    Realm {
        account_type: GovernanceAccountType::Realm,
        community_mint: new_unique(),
        reserved: [0; 6],

        authority: Some(new_unique()),
        name: "test-realm".to_string(),
        config: RealmConfig {
            council_mint: Some(new_unique()),
            use_community_voter_weight_addin: false,
            use_max_community_voter_weight_addin: false,
            reserved: [0; 6],
            community_mint_max_vote_weight_source: MintMaxVoteWeightSource::Absolute(100),
            min_community_weight_to_create_governance: 10,
        },

        voting_proposal_count: 0,
        reserved_v2: [0; 128],
    }
}

#[test]
fn test_max_size() {
    let realm = test_realm();

    let mut bytes = vec![];
    realm.clone().serialize(&mut bytes).unwrap();
    let size = bytes.len();

    assert_eq!(realm.get_max_size(), Some(size));
}

#[test]
fn realm_is_read_back_from_its_bytes() {
    let realm = test_realm();
    let mut bytes = vec![];
    realm.clone().serialize(&mut bytes).unwrap();
    assert_eq!(bytes[0], 1);
    assert_eq!(&bytes[1..33], &realm.community_mint.to_bytes()[..]);
    // the name follows its length, which is written as four little-endian bytes
    let name_at = 1 + 32 + 58 + 6 + 2 + 33;
    assert_eq!(&bytes[name_at..name_at + 4], &[10, 0, 0, 0]);
    assert_eq!(&bytes[name_at + 4..name_at + 14], b"test-realm");
    bytes.extend_from_slice(&[9, 9, 9]);
    assert_eq!(Realm::deserialize(&bytes), Some(realm));
}

#[test]
fn realm_with_a_name_that_is_not_utf8_is_not_read() {
    let realm = test_realm();
    let mut bytes = vec![];
    realm.serialize(&mut bytes).unwrap();
    let name_at = 1 + 32 + 58 + 6 + 2 + 33 + 4;
    bytes[name_at] = 0xff;
    assert_eq!(Realm::deserialize(&bytes), None);
}

#[test]
fn realm_with_a_bad_presence_byte_is_not_read() {
    let realm = test_realm();
    let mut bytes = vec![];
    realm.serialize(&mut bytes).unwrap();
    // presence byte of the authority
    bytes[1 + 32 + 58 + 6 + 2] = 2;
    assert_eq!(Realm::deserialize(&bytes), None);
}

#[test]
fn truncated_realm_is_not_read() {
    let realm = test_realm();
    let mut bytes = vec![];
    realm.serialize(&mut bytes).unwrap();
    bytes.pop();
    assert_eq!(Realm::deserialize(&bytes), None);
    assert_eq!(Realm::deserialize(&[]), None);
}

#[test]
fn governance_is_read_back_from_its_bytes() {
    let governance = Governance {
        account_type: GovernanceAccountType::MintGovernance,
        realm: new_unique(),
        governed_account: new_unique(),
        proposals_count: 7,
        config: GovernanceConfig {
            vote_threshold_percentage: VoteThresholdPercentage::YesVote(60),
            min_community_weight_to_create_proposal: 5,
            min_transaction_hold_up_time: 10,
            max_voting_time: 100,
            vote_tipping: VoteTipping::Early,
            proposal_cool_off_time: 0,
            min_council_weight_to_create_proposal: 1,
        },
        reserved: [0; 6],
        voting_proposal_count: 2,
        reserved_v2: [0; 128],
    };
    let mut bytes = vec![];
    assert_eq!(governance.serialize(&mut bytes), Ok(()));
    assert_eq!(bytes.len(), 236);
    assert_eq!(bytes[0], 9);
    assert_eq!(&bytes[65..69], &[7, 0, 0, 0]);
    assert_eq!(&bytes[69..71], &[0, 60]);
    assert_eq!(Governance::deserialize(&bytes), Some(governance));
    assert_eq!(Governance::deserialize(&bytes[..235]), None);
}

#[test]
fn token_owner_record_is_read_back_from_its_bytes() {
    let mut record = create_token_owner_record(&new_unique(), &new_unique(), &new_unique(), 1_000);
    record.governance_delegate = Some(new_unique());
    record.unrelinquished_votes_count = 3;
    let mut bytes = vec![];
    assert_eq!(record.serialize(&mut bytes), Ok(()));
    assert_eq!(bytes.len(), 1 + 96 + 8 + 4 + 4 + 1 + 7 + 33 + 128);
    assert_eq!(bytes[0], 2);
    assert_eq!(&bytes[97..105], &[0xe8, 0x03, 0, 0, 0, 0, 0, 0]);
    assert_eq!(TokenOwnerRecord::deserialize(&bytes), Some(record));
}

#[test]
fn vote_record_is_read_back_from_its_bytes() {
    let record = VoteRecord {
        account_type: GovernanceAccountType::VoteRecord,
        proposal: new_unique(),
        governing_token_owner: new_unique(),
        is_relinquished: false,
        voter_weight: 42,
        vote: Vote::Approve(vec![
            VoteChoice { rank: 0, weight_percentage: 100 },
            VoteChoice { rank: 1, weight_percentage: 0 },
        ]),
        reserved_v2: [0; 8],
    };
    let mut bytes = vec![];
    assert_eq!(record.clone().serialize(&mut bytes), Ok(()));
    assert_eq!(bytes.len(), 1 + 64 + 1 + 8 + (1 + 4 + 4) + 8);
    assert_eq!(&bytes[74..83], &[0, 2, 0, 0, 0, 0, 100, 1, 0]);
    assert_eq!(VoteRecord::deserialize(&bytes), Some(record.clone()));

    let deny = VoteRecord { vote: Vote::Deny, ..record };
    let mut bytes = vec![];
    deny.clone().serialize(&mut bytes).unwrap();
    assert_eq!(bytes[74], 1);
    assert_eq!(VoteRecord::deserialize(&bytes), Some(deny));
    bytes[74] = 4;
    assert_eq!(VoteRecord::deserialize(&bytes), None);
}

#[test]
fn proposal_transaction_is_read_back_from_its_bytes() {
    let mut transaction = create_test_proposal_transaction();
    transaction.instructions.push(InstructionData {
        program_id: new_unique(),
        accounts: vec![],
        data: vec![7; 5],
    });
    transaction.executed_at = Some(-5);
    let bytes = to_vec(&transaction);
    assert_eq!(bytes[0], 8);
    assert_eq!(ProposalTransaction::deserialize(&bytes), Some(transaction.clone()));
    assert_eq!(ProposalTransaction::deserialize(&bytes[..bytes.len() - 1]), None);

    // without a time of execution the record is eight bytes shorter than its account
    transaction.executed_at = None;
    transaction.execution_status = TransactionExecutionStatus::Unexecuted;
    let shorter = to_vec(&transaction);
    assert_eq!(shorter.len() + 8, bytes.len());
    assert_eq!(transaction.get_max_size(), Some(bytes.len()));
    assert_eq!(ProposalTransaction::deserialize(&shorter), Some(transaction));
}

#[test]
fn account_meta_with_a_flag_that_is_no_boolean_is_not_read() {
    let instruction = InstructionData {
        program_id: new_unique(),
        accounts: vec![create_test_account_meta_data()],
        data: vec![],
    };
    let mut bytes = vec![];
    instruction.serialize(&mut bytes).unwrap();
    assert_eq!(InstructionData::deserialize(&bytes), Some(instruction));
    bytes[32 + 4 + 32] = 2;
    assert_eq!(InstructionData::deserialize(&bytes), None);
}

#[test]
fn identity_is_forty_four_bytes() {
    let identity = Identity {
        discriminator: [1, 2, 3, 4, 5, 6, 7, 8],
        bump: 254,
        ia_status: 2,
        aml_status: 1,
        kyc_status: 3,
        authority: new_unique(),
    };
    let bytes = identity.serialize();
    assert_eq!(bytes.len(), 44);
    assert_eq!(&bytes[..12], &[1, 2, 3, 4, 5, 6, 7, 8, 254, 2, 1, 3]);
    assert_eq!(Identity::deserialize(&bytes), Some(identity));
    assert_eq!(Identity::deserialize(&bytes[..43]), None);
    assert!(!identity.is_verified());
}

#[test]
fn account_type_tags() {
    for tag in 0u8..=12 {
        let account_type = GovernanceAccountType::from_tag(tag).unwrap();
        assert_eq!(account_type.to_tag(), tag);
    }
    assert_eq!(GovernanceAccountType::from_tag(13), None);
    assert_eq!(GovernanceAccountType::from_tag(1), Some(GovernanceAccountType::Realm));
    assert_eq!(GovernanceAccountType::Uninitialized.to_tag(), 0);
}

#[test]
fn serialize_appends_to_the_writer() {
    let governance_error: Result<(), ProgramError> = Ok(());
    let mut bytes = vec![0xaa];
    let meta = create_test_account_meta_data();
    assert_eq!(meta.serialize(&mut bytes), governance_error);
    assert_eq!(bytes.len(), 35);
    assert_eq!(bytes[0], 0xaa);
    assert_eq!(&bytes[33..], &[1, 0]);
}
