use realm_governance::cap_table::generate_cap_table;
use realm_governance::identity_verification::{
    approve, create_record, delete_record, deny, get_is_verified, transfer_authority,
    try_get_record_address, update_aml_status, update_ia_status, update_kyc_status,
    IdentityRecord, IdentityVerificationErrorCode, IDENTITY_RECORD_LEN,
};
use realm_governance::permissioned_list::{
    add_user, create_list, delete_list, remove_user, try_get_entry_address,
    try_get_list_address, ListMetadata,
};
use realm_governance::pubkey::Pubkey;
use realm_governance::verification::try_get_identity_address;
use realm_governance::whitelist::{Metadata, METADATA_LEN};
use realm_governance::{permissioned_list, whitelist};

fn key(n: u8) -> Pubkey {
    Pubkey::new_from_array([n; 32])
}

fn record() -> IdentityRecord {
    let mut record = IdentityRecord {
        bump: 0,
        ia_status: 9,
        aml_status: 9,
        kyc_status: 9,
        authority: key(0),
    };
    assert_eq!(create_record(&mut record, &key(1), 254), Ok(()));
    record
}

#[test]
fn identity_record_starts_out_initial() {
    let record = record();
    assert_eq!(
        record,
        IdentityRecord { bump: 254, ia_status: 0, aml_status: 0, kyc_status: 0, authority: key(1) }
    );
    assert_eq!(get_is_verified(&record), Ok(false));
    assert_eq!(IDENTITY_RECORD_LEN, 44);
}

#[test]
fn identity_statuses_are_written_by_the_authority_only() {
    let mut record = record();
    let before = record;
    assert_eq!(
        update_aml_status(&mut record, &key(2), 2),
        Err(IdentityVerificationErrorCode::NotAuthorized)
    );
    assert_eq!(
        update_kyc_status(&mut record, &key(2), 2),
        Err(IdentityVerificationErrorCode::NotAuthorized)
    );
    assert_eq!(
        update_ia_status(&mut record, &key(2), 2),
        Err(IdentityVerificationErrorCode::NotAuthorized)
    );
    assert_eq!(approve(&mut record, &key(2)), Err(IdentityVerificationErrorCode::NotAuthorized));
    assert_eq!(deny(&mut record, &key(2)), Err(IdentityVerificationErrorCode::NotAuthorized));
    assert_eq!(record, before);

    assert_eq!(
        update_aml_status(&mut record, &key(1), 4),
        Err(IdentityVerificationErrorCode::UnknownStatus)
    );
    assert_eq!(record, before);
    assert_eq!(update_aml_status(&mut record, &key(1), 2), Ok(()));
    assert_eq!(update_kyc_status(&mut record, &key(1), 2), Ok(()));
    assert_eq!(get_is_verified(&record), Ok(false));
    assert_eq!(update_ia_status(&mut record, &key(1), 2), Ok(()));
    assert_eq!((record.ia_status, record.aml_status, record.kyc_status), (2, 2, 2));
    assert_eq!(get_is_verified(&record), Ok(true));
    assert_eq!(update_kyc_status(&mut record, &key(1), 3), Ok(()));
    assert_eq!(get_is_verified(&record), Ok(false));
}

#[test]
fn approve_and_deny_set_all_statuses() {
    let mut record = record();
    assert_eq!(approve(&mut record, &key(1)), Ok(()));
    assert_eq!((record.ia_status, record.aml_status, record.kyc_status), (2, 2, 2));
    assert_eq!(get_is_verified(&record), Ok(true));
    assert_eq!(deny(&mut record, &key(1)), Ok(()));
    assert_eq!((record.ia_status, record.aml_status, record.kyc_status), (3, 3, 3));
    assert_eq!(get_is_verified(&record), Ok(false));
}

#[test]
fn identity_authority_is_handed_over_by_the_authority() {
    let mut record = record();
    assert_eq!(
        transfer_authority(&mut record, &key(2), &key(3)),
        Err(IdentityVerificationErrorCode::NotAuthorized)
    );
    assert_eq!(record.authority, key(1));
    assert_eq!(transfer_authority(&mut record, &key(1), &key(3)), Ok(()));
    assert_eq!(record.authority, key(3));
    assert_eq!(delete_record(&record, &key(1)), Err(IdentityVerificationErrorCode::NotAuthorized));
    assert_eq!(delete_record(&record, &key(3)), Ok(()));
}

#[test]
fn identity_record_address_is_the_one_the_gate_looks_at() {
    assert_eq!(
        try_get_record_address(&key(9), &key(2), &key(3)),
        try_get_identity_address(&key(9), &key(2), &key(3))
    );
    assert_ne!(
        try_get_record_address(&key(9), &key(2), &key(3)),
        try_get_record_address(&key(9), &key(3), &key(2))
    );
}

#[test]
fn whitelist_record() {
    let mut record = Metadata {
        bump: 0,
        accreditation_status: 9,
        aml_status: 9,
        kyc_status: 9,
        authority: key(0),
    };
    assert_eq!(whitelist::create_record(&mut record, &key(1), 7), Ok(()));
    assert_eq!(
        record,
        Metadata {
            bump: 7,
            accreditation_status: 0,
            aml_status: 0,
            kyc_status: 0,
            authority: key(1)
        }
    );
    assert_eq!(METADATA_LEN, 44);
    let before = record;
    assert_eq!(whitelist::update_record(&mut record, &key(2), 1, 1, 1), Err(whitelist::ErrorCode::NotAuthorized));
    assert_eq!(whitelist::update_record(&mut record, &key(1), 3, 1, 1), Err(whitelist::ErrorCode::UnknownStatus));
    assert_eq!(whitelist::update_record(&mut record, &key(1), 1, 3, 1), Err(whitelist::ErrorCode::UnknownStatus));
    assert_eq!(whitelist::update_record(&mut record, &key(1), 1, 1, 3), Err(whitelist::ErrorCode::UnknownStatus));
    assert_eq!(record, before);
    assert_eq!(whitelist::update_record(&mut record, &key(1), 1, 2, 0), Ok(()));
    assert_eq!((record.accreditation_status, record.aml_status, record.kyc_status), (1, 2, 0));
    assert_eq!(whitelist::update_accreditation_status(&mut record, &key(1), 2), Ok(()));
    assert_eq!(whitelist::update_aml_status(&mut record, &key(1), 1), Ok(()));
    assert_eq!(whitelist::update_kyc_status(&mut record, &key(1), 1), Ok(()));
    assert_eq!((record.accreditation_status, record.aml_status, record.kyc_status), (2, 1, 1));
    assert_eq!(whitelist::update_kyc_status(&mut record, &key(1), 3), Err(whitelist::ErrorCode::UnknownStatus));
    assert_eq!(whitelist::update_aml_status(&mut record, &key(2), 1), Err(whitelist::ErrorCode::NotAuthorized));
    assert_eq!(
        whitelist::update_accreditation_status(&mut record, &key(2), 1),
        Err(whitelist::ErrorCode::NotAuthorized)
    );
}

#[test]
fn permissioned_list_belongs_to_its_authority() {
    let mut list = ListMetadata { authority: key(0) };
    assert_eq!(create_list(&mut list, &key(1)), Ok(()));
    assert_eq!(list.authority, key(1));
    assert_eq!(add_user(&list, &key(1)), Ok(()));
    assert_eq!(remove_user(&list, &key(1)), Ok(()));
    assert_eq!(delete_list(&list, &key(1)), Ok(()));
    assert_eq!(add_user(&list, &key(2)), Err(permissioned_list::ErrorCode::NotAuthorized));
    assert_eq!(remove_user(&list, &key(2)), Err(permissioned_list::ErrorCode::NotAuthorized));
    assert_eq!(delete_list(&list, &key(2)), Err(permissioned_list::ErrorCode::NotAuthorized));

    let address = try_get_list_address(&key(9), &key(1)).unwrap();
    assert_eq!(
        Some((address, Pubkey::try_find_program_address(&[b"list", &[1; 32]], &key(9)).unwrap().1)),
        Pubkey::try_find_program_address(&[b"list", &[1; 32]], &key(9))
    );
    assert_ne!(try_get_entry_address(&key(9), &address, &key(5)), Some(address));
    assert_ne!(
        try_get_entry_address(&key(9), &address, &key(5)),
        try_get_entry_address(&key(9), &address, &key(6))
    );
}

#[test]
fn cap_table_starts_out_empty() {
    let table = generate_cap_table();
    assert!(table.entries.is_empty());
    assert_eq!((table.authorized_supply, table.reserved_supply), (0, 0));
}

#[test]
fn whitelist_record_address_is_derived_from_group_and_subject() {
    let address = whitelist::try_get_record_address(&key(9), &key(2), &key(3)).unwrap();
    assert_eq!(
        Some((address, Pubkey::try_find_program_address(&[&[2; 32], &[3; 32]], &key(9)).unwrap().1)),
        Pubkey::try_find_program_address(&[&[2; 32], &[3; 32]], &key(9))
    );
    assert_ne!(whitelist::try_get_record_address(&key(9), &key(3), &key(2)), Some(address));
}
