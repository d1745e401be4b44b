//! Realm: the top-level namespace of a governed organisation.

use vstd::prelude::*;
use vstd::utf8::encode_utf8;

use crate::account::{account_check, account_type_of, assert_account_exists, get_account_type, AccountInfo};
use crate::enums::{
    parse_account_type, parse_max_vote_weight_source, read_account_type,
    read_max_vote_weight_source, wire_account_type, wire_max_vote_weight_source,
    write_account_type, write_max_vote_weight_source, GovernanceAccountType,
    MintMaxVoteWeightSource, SUPPLY_FRACTION_BASE,
};
use crate::error::{GovernanceError, GovernanceToolsError, ProgramError};
use crate::pubkey::{derive_address, seeds_of, Pubkey, PROGRAM_AUTHORITY_SEED};
use crate::token_owner_record::{
    get_token_owner_record_data_for_realm, token_owner_record_data_for_realm,
};
use crate::wire::{
    parse_array, parse_bool, parse_option_pubkey, parse_pubkey, parse_string, parse_u16,
    parse_u64, read_array, read_bool, read_option_pubkey, read_pubkey, read_string, read_u16,
    read_u64, rest_of, value_of, wire_bool, wire_option_pubkey, wire_pubkey, wire_string,
    wire_u16, wire_u64, write_bool, write_option_pubkey, write_pubkey, write_slice, write_string,
    write_u16, write_u64, Parsed,
};

verus! {

/// Realm Config instruction args
#[derive(Clone, Copy, Debug, PartialEq, Eq, Structural)]
pub struct RealmConfigArgs {
    /// Indicates whether council_mint should be used
    pub use_council_mint: bool,
    /// Min number of community tokens required to create a governance
    pub min_community_weight_to_create_governance: u64,
    /// The source used for community mint max vote weight source
    pub community_mint_max_vote_weight_source: MintMaxVoteWeightSource,
    /// Indicates whether an external addin program should be used to provide
    /// community voters weights
    pub use_community_voter_weight_addin: bool,
    /// Indicates whether an external addin program should be used to provide
    /// max voters weight for the community mint
    pub use_max_community_voter_weight_addin: bool,
}

/// SetRealmAuthority instruction action
#[derive(Clone, Copy, Debug, PartialEq, Eq, Structural)]
pub enum SetRealmAuthorityAction {
    /// Sets realm authority without any checks
    SetUnchecked,
    /// Sets realm authority and checks that the new authority is one of the
    /// realm's governances
    SetChecked,
    /// Removes realm authority
    Remove,
}

/// Realm Config defining Realm parameters.
#[derive(Clone, Copy, Debug, PartialEq, Eq)]
pub struct RealmConfig {
    /// Whether an add-in provides the voters' weights for the community mint
    pub use_community_voter_weight_addin: bool,
    /// Whether an add-in provides the max voter weight for the community mint
    pub use_max_community_voter_weight_addin: bool,
    /// Reserved space for future versions
    pub reserved: [u8; 6],
    /// Min number of voter's community weight required to create a governance
    pub min_community_weight_to_create_governance: u64,
    /// The source used for community mint max vote weight source
    pub community_mint_max_vote_weight_source: MintMaxVoteWeightSource,
    /// Optional council mint
    pub council_mint: Option<Pubkey>,
}

/// Governance Realm Account, at the address derived from `governance` and
/// the name.
#[derive(Clone, Debug, PartialEq, Eq)]
pub struct Realm {
    /// Governance account type
    pub account_type: GovernanceAccountType,
    /// Community mint
    pub community_mint: Pubkey,
    /// Configuration of the Realm
    pub config: RealmConfig,
    /// Reserved space for future versions
    pub reserved: [u8; 6],
    /// The number of proposals in voting state in the Realm
    pub voting_proposal_count: u16,
    /// Realm authority. The authority must sign transactions which update
    /// the realm config
    pub authority: Option<Pubkey>,
    /// Governance Realm name
    pub name: String,
    /// Reserved space for later versions
    pub reserved_v2: [u8; 128],
}

/// A realm as a value: the name is a sequence of characters.
pub struct RealmView {
    pub account_type: GovernanceAccountType,
    pub community_mint: Pubkey,
    pub config: RealmConfig,
    pub reserved: [u8; 6],
    pub voting_proposal_count: u16,
    pub authority: Option<Pubkey>,
    pub name: Seq<char>,
    pub reserved_v2: [u8; 128],
}

impl View for Realm {
    type V = RealmView;

    open spec fn view(&self) -> RealmView {
        RealmView {
            account_type: self.account_type,
            community_mint: self.community_mint,
            config: self.config,
            reserved: self.reserved,
            voting_proposal_count: self.voting_proposal_count,
            authority: self.authority,
            name: self.name@,
            reserved_v2: self.reserved_v2,
        }
    }
}

// ---------------------------------------------------------------------------
// Persisted layout
// ---------------------------------------------------------------------------

pub open spec fn wire_realm_config(c: RealmConfig) -> Seq<u8> {
    wire_bool(c.use_community_voter_weight_addin) + wire_bool(
        c.use_max_community_voter_weight_addin,
    ) + c.reserved@ + wire_u64(c.min_community_weight_to_create_governance)
        + wire_max_vote_weight_source(c.community_mint_max_vote_weight_source)
        + wire_option_pubkey(c.council_mint)
}

pub open spec fn parse_realm_config(s: Seq<u8>) -> Parsed<RealmConfig> {
    let a = parse_bool(s);
    let b = parse_bool(rest_of(a));
    let c = parse_array::<6>(rest_of(b));
    let d = parse_u64(rest_of(c));
    let e = parse_max_vote_weight_source(rest_of(d));
    let f = parse_option_pubkey(rest_of(e));
    if a is Some && b is Some && c is Some && d is Some && e is Some && f is Some {
        Some(
            (
                RealmConfig {
                    use_community_voter_weight_addin: value_of(a),
                    use_max_community_voter_weight_addin: value_of(b),
                    reserved: value_of(c),
                    min_community_weight_to_create_governance: value_of(d),
                    community_mint_max_vote_weight_source: value_of(e),
                    council_mint: value_of(f),
                },
                rest_of(f),
            ),
        )
    } else {
        None
    }
}

pub open spec fn wire_realm(r: RealmView) -> Seq<u8> {
    wire_account_type(r.account_type) + wire_pubkey(r.community_mint) + wire_realm_config(r.config)
        + r.reserved@ + wire_u16(r.voting_proposal_count) + wire_option_pubkey(r.authority)
        + wire_string(r.name) + r.reserved_v2@
}

pub open spec fn parse_realm(s: Seq<u8>) -> Parsed<RealmView> {
    let a = parse_account_type(s);
    let b = parse_pubkey(rest_of(a));
    let c = parse_realm_config(rest_of(b));
    let d = parse_array::<6>(rest_of(c));
    let e = parse_u16(rest_of(d));
    let f = parse_option_pubkey(rest_of(e));
    let g = parse_string(rest_of(f));
    let h = parse_array::<128>(rest_of(g));
    if a is Some && b is Some && c is Some && d is Some && e is Some && f is Some && g is Some
        && h is Some {
        Some(
            (
                RealmView {
                    account_type: value_of(a),
                    community_mint: value_of(b),
                    config: value_of(c),
                    reserved: value_of(d),
                    voting_proposal_count: value_of(e),
                    authority: value_of(f),
                    name: value_of(g),
                    reserved_v2: value_of(h),
                },
                rest_of(h),
            ),
        )
    } else {
        None
    }
}

fn read_realm_config(data: &[u8], pos: usize) -> (r: Option<(RealmConfig, usize)>)
    requires
        pos <= data@.len(),
    ensures
        crate::wire::reads(r, data@, pos, parse_realm_config(data@.skip(pos as int))),
{
    let (a, pos) = read_bool(data, pos)?;
    let (b, pos) = read_bool(data, pos)?;
    let (c, pos) = read_array::<6>(data, pos)?;
    let (d, pos) = read_u64(data, pos)?;
    let (e, pos) = read_max_vote_weight_source(data, pos)?;
    let (f, pos) = read_option_pubkey(data, pos)?;
    Some(
        (
            RealmConfig {
                use_community_voter_weight_addin: a,
                use_max_community_voter_weight_addin: b,
                reserved: c,
                min_community_weight_to_create_governance: d,
                community_mint_max_vote_weight_source: e,
                council_mint: f,
            },
            pos,
        ),
    )
}

fn write_realm_config(buf: &mut Vec<u8>, c: &RealmConfig)
    ensures
        final(buf)@ == old(buf)@ + wire_realm_config(*c),
{
    write_bool(buf, c.use_community_voter_weight_addin);
    write_bool(buf, c.use_max_community_voter_weight_addin);
    write_slice(buf, c.reserved.as_slice());
    write_u64(buf, c.min_community_weight_to_create_governance);
    write_max_vote_weight_source(buf, &c.community_mint_max_vote_weight_source);
    write_option_pubkey(buf, &c.council_mint);
    assert(buf@ =~= old(buf)@ + wire_realm_config(*c));
}

/// Checks if the given account type is the Realm account type
pub fn is_realm_account_type(account_type: &GovernanceAccountType) -> (r: bool)
    ensures
        r == (*account_type == GovernanceAccountType::Realm),
{
    match account_type {
        GovernanceAccountType::Realm => true,
        GovernanceAccountType::Governance
        | GovernanceAccountType::ProgramGovernance
        | GovernanceAccountType::MintGovernance
        | GovernanceAccountType::TokenGovernance
        | GovernanceAccountType::Uninitialized
        | GovernanceAccountType::RealmConfig
        | GovernanceAccountType::TokenOwnerRecord
        | GovernanceAccountType::Proposal
        | GovernanceAccountType::SignatoryRecord
        | GovernanceAccountType::ProposalTransaction
        | GovernanceAccountType::VoteRecord
        | GovernanceAccountType::ProgramMetadata => false,
    }
}

/// What the check of the authority that creates a governance comes to:
/// the realm's authority may, if it signed; else the owner of a record of
/// this realm, or the delegate, may, if they signed and the weight of the
/// record reaches the realm's minimum.
pub open spec fn create_authority_check(
    realm_data: RealmView,
    program_id: Pubkey,
    realm: Pubkey,
    token_owner_record_info: &AccountInfo,
    create_authority_info: &AccountInfo,
    realm_config_info: Option<&AccountInfo>,
    addin_voter_weight: Option<u64>,
) -> Result<(), ProgramError> {
    if realm_data.authority == Some(create_authority_info.key) {
        if !create_authority_info.is_signer {
            Err(ProgramError::Governance(GovernanceError::RealmAuthorityMustSign))
        } else {
            Ok(())
        }
    } else {
        match token_owner_record_data_for_realm(program_id, token_owner_record_info, realm) {
            Err(e) => Err(e),
            Ok(record) => if !record.owner_or_delegate_signed(create_authority_info) {
                Err(
                    ProgramError::Governance(
                        GovernanceError::GoverningTokenOwnerOrDelegateMustSign,
                    ),
                )
            } else if realm_config_info is None {
                Err(ProgramError::NotEnoughAccountKeys)
            } else {
                match record.voter_weight(realm_data, addin_voter_weight) {
                    Err(e) => Err(e),
                    Ok(weight) => record.create_governance_check(realm_data, weight),
                }
            },
        }
    }
}

/// Who may create a governance: the realm's authority under its own
/// signature, or else the owner or delegate of a record of this realm, under
/// their signature, whose weight is at least the minimum that the realm asks
/// for, whichever of the realm's mints the record is of.
pub proof fn lemma_create_authority_has_signed(
    realm_data: RealmView,
    program_id: Pubkey,
    realm: Pubkey,
    token_owner_record_info: &AccountInfo,
    create_authority_info: &AccountInfo,
    realm_config_info: Option<&AccountInfo>,
    addin_voter_weight: Option<u64>,
)
    requires
        create_authority_check(
            realm_data,
            program_id,
            realm,
            token_owner_record_info,
            create_authority_info,
            realm_config_info,
            addin_voter_weight,
        ) is Ok,
    ensures
        create_authority_info.is_signer,
        realm_data.authority != Some(create_authority_info.key) ==> ({
            let record = token_owner_record_data_for_realm(
                program_id,
                token_owner_record_info,
                realm,
            );
            &&& record is Ok
            &&& record->Ok_0.owner_or_delegate_signed(create_authority_info)
            &&& record->Ok_0.voter_weight(realm_data, addin_voter_weight) is Ok
            &&& record->Ok_0.voter_weight(realm_data, addin_voter_weight)->Ok_0
                >= realm_data.config.min_community_weight_to_create_governance
        }),
{
}

/// Bytes of a realm besides its name, with both optional keys present.
pub const REALM_FIXED_SIZE: usize = 264;

impl Realm {
    /// The mint is the community mint or the council mint of the realm.
    pub open spec fn is_governing_token_mint(&self, mint: Pubkey) -> bool {
        self.community_mint == mint || self.config.council_mint == Some(mint)
    }

    /// Deposits of the mint are closed: an add-in provides the weight of the
    /// community mint.
    pub open spec fn deposits_closed(&self, mint: Pubkey) -> bool {
        self.config.use_community_voter_weight_addin && self.community_mint == mint
    }

    /// The size of the account that holds the realm: its name and 264
    /// bytes, or `None` where that is more than a size can be.
    pub fn get_max_size(&self) -> (r: Option<usize>)
        ensures
            r == if encode_utf8(self.name@).len() + REALM_FIXED_SIZE <= usize::MAX {
                Some((encode_utf8(self.name@).len() + REALM_FIXED_SIZE) as usize)
            } else {
                None
            },
    {
        self.name.as_str().as_bytes().len().checked_add(REALM_FIXED_SIZE)
    }

    pub fn is_initialized(&self) -> (r: bool)
        ensures
            r == (self.account_type == GovernanceAccountType::Realm),
    {
        self.account_type == GovernanceAccountType::Realm
    }

    /// Asserts the given mint is either Community or Council mint of the Realm
    pub fn assert_is_valid_governing_token_mint(&self, governing_token_mint: &Pubkey) -> (r: Result<
        (),
        ProgramError,
    >)
        ensures
            self.is_governing_token_mint(*governing_token_mint) ==> r == Ok::<(), ProgramError>(()),
            !self.is_governing_token_mint(*governing_token_mint) ==> r == Err::<(), ProgramError>(
                ProgramError::Governance(GovernanceError::InvalidGoverningTokenMint),
            ),
    {
        if self.community_mint == *governing_token_mint {
            return Ok(());
        }
        match self.config.council_mint {
            Some(council_mint) => {
                if council_mint == *governing_token_mint {
                    return Ok(());
                }
            },
            None => {},
        }
        Err(ProgramError::Governance(GovernanceError::InvalidGoverningTokenMint))
    }

    /// What the check of a mint and its holding account comes to.
    pub open spec fn mint_and_holding_check(
        &self,
        program_id: Pubkey,
        realm: Pubkey,
        governing_token_mint: Pubkey,
        governing_token_holding: Pubkey,
    ) -> Result<(), ProgramError> {
        if !self.is_governing_token_mint(governing_token_mint) {
            Err(ProgramError::Governance(GovernanceError::InvalidGoverningTokenMint))
        } else if governing_token_holding_address(program_id, realm, governing_token_mint)
            != Some(governing_token_holding) {
            Err(ProgramError::Governance(GovernanceError::InvalidGoverningTokenHoldingAccount))
        } else {
            Ok(())
        }
    }

    /// Asserts the given governing token mint and holding accounts are valid for the realm
    pub fn assert_is_valid_governing_token_mint_and_holding(
        &self,
        program_id: &Pubkey,
        realm: &Pubkey,
        governing_token_mint: &Pubkey,
        governing_token_holding: &Pubkey,
    ) -> (r: Result<(), ProgramError>)
        ensures
            r == self.mint_and_holding_check(
                *program_id,
                *realm,
                *governing_token_mint,
                *governing_token_holding,
            ),
    {
        self.assert_is_valid_governing_token_mint(governing_token_mint)?;
        match derive_governing_token_holding_address(program_id, realm, governing_token_mint) {
            Some(address) => {
                if address != *governing_token_holding {
                    return Err(
                        ProgramError::Governance(
                            GovernanceError::InvalidGoverningTokenHoldingAccount,
                        ),
                    );
                }
            },
            None => {
                return Err(
                    ProgramError::Governance(GovernanceError::InvalidGoverningTokenHoldingAccount),
                );
            },
        }
        Ok(())
    }

    /// Asserts the given governing token can be deposited into the realm
    pub fn asset_governing_tokens_deposits_allowed(&self, governing_token_mint: &Pubkey) -> (r:
        Result<(), ProgramError>)
        ensures
            self.deposits_closed(*governing_token_mint) ==> r == Err::<(), ProgramError>(
                ProgramError::Governance(GovernanceError::GoverningTokenDepositsNotAllowed),
            ),
            !self.deposits_closed(*governing_token_mint) ==> r == Ok::<(), ProgramError>(()),
    {
        if self.config.use_community_voter_weight_addin && self.community_mint
            == *governing_token_mint {
            return Err(ProgramError::Governance(GovernanceError::GoverningTokenDepositsNotAllowed));
        }
        Ok(())
    }

    /// Assert the given create authority can create governance.
    /// `realm_config_info` is the account that follows in the instruction's
    /// list, if any; `addin_voter_weight` is the weight that the add-in's
    /// record grants the owner, where one was handed over.
    pub fn assert_create_authority_can_create_governance(
        &self,
        program_id: &Pubkey,
        realm: &Pubkey,
        token_owner_record_info: &AccountInfo,
        create_authority_info: &AccountInfo,
        realm_config_info: Option<&AccountInfo>,
        addin_voter_weight: Option<u64>,
    ) -> (r: Result<(), ProgramError>)
        ensures
            r == create_authority_check(
                self@,
                *program_id,
                *realm,
                token_owner_record_info,
                create_authority_info,
                realm_config_info,
                addin_voter_weight,
            ),
    {
        match self.authority {
            Some(authority) => {
                if authority == create_authority_info.key {
                    return if !create_authority_info.is_signer {
                        Err(ProgramError::Governance(GovernanceError::RealmAuthorityMustSign))
                    } else {
                        Ok(())
                    };
                }
            },
            None => {},
        }
        let token_owner_record_data = get_token_owner_record_data_for_realm(
            program_id,
            token_owner_record_info,
            realm,
        )?;
        token_owner_record_data.assert_token_owner_or_delegate_is_signer(create_authority_info)?;
        if realm_config_info.is_none() {
            return Err(ProgramError::NotEnoughAccountKeys);
        }
        let voter_weight = token_owner_record_data.resolve_voter_weight(
            self,
            addin_voter_weight,
        )?;
        token_owner_record_data.assert_can_create_governance(self, voter_weight)?;
        Ok(())
    }

    /// Reads the realm at the front of `data`; what follows it is ignored.
    pub fn deserialize(data: &[u8]) -> (r: Option<Realm>)
        ensures
            match r {
                Some(realm) => parse_realm(data@) is Some && value_of(parse_realm(data@))
                    == realm@,
                None => parse_realm(data@) is None,
            },
    {
        assert(data@.skip(0) =~= data@);
        let (account_type, pos) = read_account_type(data, 0)?;
        let (community_mint, pos) = read_pubkey(data, pos)?;
        let (config, pos) = read_realm_config(data, pos)?;
        let (reserved, pos) = read_array::<6>(data, pos)?;
        let (voting_proposal_count, pos) = read_u16(data, pos)?;
        let (authority, pos) = read_option_pubkey(data, pos)?;
        let (name, pos) = read_string(data, pos)?;
        let (reserved_v2, _) = read_array::<128>(data, pos)?;
        Some(
            Realm {
                account_type,
                community_mint,
                config,
                reserved,
                voting_proposal_count,
                authority,
                name,
                reserved_v2,
            },
        )
    }

    /// Serializes account into the target buffer. A name of more bytes than
    /// a length field counts cannot be written.
    pub fn serialize(self, writer: &mut Vec<u8>) -> (r: Result<(), ProgramError>)
        ensures
            encode_utf8(self.name@).len() <= u32::MAX ==> r is Ok && final(writer)@ == old(
                writer,
            )@ + wire_realm(self@),
            encode_utf8(self.name@).len() > u32::MAX ==> r == Err::<(), ProgramError>(
                ProgramError::BorshIoError,
            ) && final(writer)@ == old(writer)@,
    {
        if self.name.as_str().as_bytes().len() > u32::MAX as usize {
            return Err(ProgramError::BorshIoError);
        }
        write_account_type(writer, &self.account_type);
        write_pubkey(writer, &self.community_mint);
        write_realm_config(writer, &self.config);
        write_slice(writer, self.reserved.as_slice());
        write_u16(writer, self.voting_proposal_count);
        write_option_pubkey(writer, &self.authority);
        write_string(writer, self.name.as_str());
        write_slice(writer, self.reserved_v2.as_slice());
        assert(writer@ =~= old(writer)@ + wire_realm(self@));
        Ok(())
    }
}

// ---------------------------------------------------------------------------
// Reading a realm off an account
// ---------------------------------------------------------------------------

/// What the check of a realm account comes to.
pub open spec fn realm_check(program_id: Pubkey, realm_info: &AccountInfo) -> Result<
    (),
    ProgramError,
> {
    match account_type_of(program_id, realm_info) {
        Err(e) => Err(e),
        Ok(t) => if t == GovernanceAccountType::Realm {
            Ok(())
        } else {
            Err(ProgramError::Tools(GovernanceToolsError::InvalidAccountType))
        },
    }
}

/// Checks whether the Realm account exists, is initialized and owned by Governance program
pub fn assert_is_valid_realm(program_id: &Pubkey, realm_info: &AccountInfo) -> (r: Result<
    (),
    ProgramError,
>)
    ensures
        r == realm_check(*program_id, realm_info),
{
    let account_type = get_account_type(program_id, realm_info)?;
    if !is_realm_account_type(&account_type) {
        return Err(ProgramError::Tools(GovernanceToolsError::InvalidAccountType));
    }
    Ok(())
}

/// The realm that the account holds for the program.
pub open spec fn realm_data(program_id: Pubkey, realm_info: &AccountInfo) -> Result<
    RealmView,
    ProgramError,
> {
    if account_check(program_id, realm_info) is Err {
        Err(account_check(program_id, realm_info)->Err_0)
    } else if parse_realm(realm_info.data@) is None {
        Err(ProgramError::BorshIoError)
    } else if value_of(parse_realm(realm_info.data@)).account_type != GovernanceAccountType::Realm {
        Err(ProgramError::UninitializedAccount)
    } else {
        Ok(value_of(parse_realm(realm_info.data@)))
    }
}

/// An executable result agrees with a specified one.
pub open spec fn realm_result(r: Result<Realm, ProgramError>, expected: Result<
    RealmView,
    ProgramError,
>) -> bool {
    match r {
        Ok(realm) => expected == Ok::<RealmView, ProgramError>(realm@),
        Err(e) => expected == Err::<RealmView, ProgramError>(e),
    }
}

/// Deserializes account and checks owner program
pub fn get_realm_data(program_id: &Pubkey, realm_info: &AccountInfo) -> (r: Result<
    Realm,
    ProgramError,
>)
    ensures
        realm_result(r, realm_data(*program_id, realm_info)),
{
    assert_account_exists(program_id, realm_info)?;
    match Realm::deserialize(realm_info.data.as_slice()) {
        Some(realm) => {
            if !realm.is_initialized() {
                Err(ProgramError::UninitializedAccount)
            } else {
                Ok(realm)
            }
        },
        None => Err(ProgramError::BorshIoError),
    }
}

/// The realm that the account holds, for the one who is its authority.
pub open spec fn realm_data_for_authority(
    program_id: Pubkey,
    realm_info: &AccountInfo,
    realm_authority: Pubkey,
) -> Result<RealmView, ProgramError> {
    match realm_data(program_id, realm_info) {
        Err(e) => Err(e),
        Ok(realm) => if realm.authority is None {
            Err(ProgramError::Governance(GovernanceError::RealmHasNoAuthority))
        } else if realm.authority != Some(realm_authority) {
            Err(ProgramError::Governance(GovernanceError::InvalidAuthorityForRealm))
        } else {
            Ok(realm)
        },
    }
}

/// Deserializes account and checks the given authority is Realm's authority
pub fn get_realm_data_for_authority(
    program_id: &Pubkey,
    realm_info: &AccountInfo,
    realm_authority: &Pubkey,
) -> (r: Result<Realm, ProgramError>)
    ensures
        realm_result(r, realm_data_for_authority(*program_id, realm_info, *realm_authority)),
{
    let realm_data = get_realm_data(program_id, realm_info)?;
    match realm_data.authority {
        None => {
            return Err(ProgramError::Governance(GovernanceError::RealmHasNoAuthority));
        },
        Some(authority) => {
            if authority != *realm_authority {
                return Err(ProgramError::Governance(GovernanceError::InvalidAuthorityForRealm));
            }
        },
    }
    Ok(realm_data)
}

/// The realm that the account holds, for one of its two mints.
pub open spec fn realm_data_for_governing_token_mint(
    program_id: Pubkey,
    realm_info: &AccountInfo,
    governing_token_mint: Pubkey,
) -> Result<RealmView, ProgramError> {
    match realm_data(program_id, realm_info) {
        Err(e) => Err(e),
        Ok(realm) => if realm.community_mint == governing_token_mint || realm.config.council_mint
            == Some(governing_token_mint) {
            Ok(realm)
        } else {
            Err(ProgramError::Governance(GovernanceError::InvalidGoverningTokenMint))
        },
    }
}

/// Deserializes Realm account and asserts the given governing_token_mint is
/// either Community or Council mint of the Realm
pub fn get_realm_data_for_governing_token_mint(
    program_id: &Pubkey,
    realm_info: &AccountInfo,
    governing_token_mint: &Pubkey,
) -> (r: Result<Realm, ProgramError>)
    ensures
        realm_result(
            r,
            realm_data_for_governing_token_mint(*program_id, realm_info, *governing_token_mint),
        ),
{
    let realm_data = get_realm_data(program_id, realm_info)?;
    realm_data.assert_is_valid_governing_token_mint(governing_token_mint)?;
    Ok(realm_data)
}

// ---------------------------------------------------------------------------
// Addresses
// ---------------------------------------------------------------------------

/// The seeds of a realm: `governance` and the name.
pub open spec fn realm_address_seeds(name: Seq<char>) -> Seq<Seq<u8>> {
    seq![PROGRAM_AUTHORITY_SEED@, encode_utf8(name)]
}

/// The address of the realm of that name.
pub open spec fn realm_address(program_id: Pubkey, name: Seq<char>) -> Option<Pubkey> {
    match derive_address(realm_address_seeds(name), program_id) {
        Some((address, _)) => Some(address),
        None => None,
    }
}

/// Returns Realm PDA seeds
pub fn get_realm_address_seeds(name: &str) -> (r: [&[u8]; 2])
    ensures
        seeds_of(r) == realm_address_seeds(name@),
{
    let tag: &'static [u8; 10] = &PROGRAM_AUTHORITY_SEED;
    let r = [tag.as_slice(), name.as_bytes()];
    assert(seeds_of(r) =~= realm_address_seeds(name@));
    r
}

/// Derives the address once, where there is one.
pub(crate) fn derive_realm_address(program_id: &Pubkey, name: &str) -> (r: Option<Pubkey>)
    ensures
        r == realm_address(*program_id, name@),
        encode_utf8(name@).len() > 32 ==> r is None,
{
    let seeds = get_realm_address_seeds(name);
    assert(seeds_of(seeds)[1] == encode_utf8(name@));
    match Pubkey::try_find_address(&seeds, program_id) {
        Some((address, _)) => Some(address),
        None => None,
    }
}

/// Returns Realm PDA address
pub fn get_realm_address(program_id: &Pubkey, name: &str) -> (r: Pubkey)
    requires
        realm_address(*program_id, name@) is Some,
    ensures
        Some(r) == realm_address(*program_id, name@),
{
    let seeds = get_realm_address_seeds(name);
    Pubkey::find_address(&seeds, program_id).0
}

/// Returns Realm PDA address, where the name derives one.
pub fn try_get_realm_address(program_id: &Pubkey, name: &str) -> (r: Option<Pubkey>)
    ensures
        r == realm_address(*program_id, name@),
        encode_utf8(name@).len() > 32 ==> r is None,
{
    match derive_realm_address(program_id, name) {
        Some(_) => Some(get_realm_address(program_id, name)),
        None => None,
    }
}

/// The seeds of the holding account of a mint in a realm.
pub open spec fn governing_token_holding_address_seeds(
    realm: Pubkey,
    governing_token_mint: Pubkey,
) -> Seq<Seq<u8>> {
    seq![PROGRAM_AUTHORITY_SEED@, realm@, governing_token_mint@]
}

/// The address of the holding account of a mint in a realm.
pub open spec fn governing_token_holding_address(
    program_id: Pubkey,
    realm: Pubkey,
    governing_token_mint: Pubkey,
) -> Option<Pubkey> {
    match derive_address(governing_token_holding_address_seeds(realm, governing_token_mint), program_id) {
        Some((address, _)) => Some(address),
        None => None,
    }
}

/// Returns Realm Token Holding PDA seeds
pub fn get_governing_token_holding_address_seeds<'a>(
    realm: &'a Pubkey,
    governing_token_mint: &'a Pubkey,
) -> (r: [&'a [u8]; 3])
    ensures
        seeds_of(r) == governing_token_holding_address_seeds(*realm, *governing_token_mint),
{
    let tag: &'static [u8; 10] = &PROGRAM_AUTHORITY_SEED;
    let r = [tag.as_slice(), realm.as_ref(), governing_token_mint.as_ref()];
    assert(seeds_of(r) =~= governing_token_holding_address_seeds(*realm, *governing_token_mint));
    r
}

/// Derives the address once, where there is one.
pub(crate) fn derive_governing_token_holding_address(
    program_id: &Pubkey,
    realm: &Pubkey,
    governing_token_mint: &Pubkey,
) -> (r: Option<Pubkey>)
    ensures
        r == governing_token_holding_address(*program_id, *realm, *governing_token_mint),
{
    let seeds = get_governing_token_holding_address_seeds(realm, governing_token_mint);
    match Pubkey::try_find_address(&seeds, program_id) {
        Some((address, _)) => Some(address),
        None => None,
    }
}

/// Returns Realm Token Holding PDA address
pub fn get_governing_token_holding_address(
    program_id: &Pubkey,
    realm: &Pubkey,
    governing_token_mint: &Pubkey,
) -> (r: Pubkey)
    requires
        governing_token_holding_address(*program_id, *realm, *governing_token_mint) is Some,
    ensures
        Some(r) == governing_token_holding_address(*program_id, *realm, *governing_token_mint),
{
    let seeds = get_governing_token_holding_address_seeds(realm, governing_token_mint);
    Pubkey::find_address(&seeds, program_id).0
}

/// Returns Realm Token Holding PDA address, where there is one.
pub fn try_get_governing_token_holding_address(
    program_id: &Pubkey,
    realm: &Pubkey,
    governing_token_mint: &Pubkey,
) -> (r: Option<Pubkey>)
    ensures
        r == governing_token_holding_address(*program_id, *realm, *governing_token_mint),
{
    match derive_governing_token_holding_address(program_id, realm, governing_token_mint) {
        Some(_) => Some(get_governing_token_holding_address(program_id, realm, governing_token_mint)),
        None => None,
    }
}

// ---------------------------------------------------------------------------
// Configuration
// ---------------------------------------------------------------------------

/// The council mint that config args ask for, of the one that was handed
/// over.
pub open spec fn council_mint_of(config_args: RealmConfigArgs, council_mint: Option<Pubkey>) -> Result<
    Option<Pubkey>,
    ProgramError,
> {
    if !config_args.use_council_mint {
        Ok(None)
    } else if council_mint is None {
        Err(ProgramError::NotEnoughAccountKeys)
    } else {
        Ok(council_mint)
    }
}

/// What creating a realm comes to. The account must hold nothing yet, the
/// config must be supported, and the account must be the one derived from
/// the name.
pub open spec fn create_realm_result(
    program_id: Pubkey,
    realm_info: &AccountInfo,
    name: Seq<char>,
    community_mint: Pubkey,
    council_mint: Option<Pubkey>,
    realm_authority: Pubkey,
    config_args: RealmConfigArgs,
) -> Result<RealmView, ProgramError> {
    if realm_info.data@.len() != 0 {
        Err(ProgramError::Governance(GovernanceError::RealmAlreadyExists))
    } else if realm_config_args_check(config_args) is Err {
        Err(realm_config_args_check(config_args)->Err_0)
    } else if council_mint_of(config_args, council_mint) is Err {
        Err(council_mint_of(config_args, council_mint)->Err_0)
    } else if realm_address(program_id, name) != Some(realm_info.key) {
        Err(ProgramError::InvalidSeeds)
    } else {
        Ok(
            RealmView {
                account_type: GovernanceAccountType::Realm,
                community_mint,
                config: RealmConfig {
                    use_community_voter_weight_addin: config_args.use_community_voter_weight_addin,
                    use_max_community_voter_weight_addin: config_args.use_max_community_voter_weight_addin,
                    reserved: crate::wire::array_of::<6>(Seq::new(6, |i: int| 0u8)),
                    min_community_weight_to_create_governance: config_args.min_community_weight_to_create_governance,
                    community_mint_max_vote_weight_source: config_args.community_mint_max_vote_weight_source,
                    council_mint: council_mint_of(config_args, council_mint)->Ok_0,
                },
                reserved: crate::wire::array_of::<6>(Seq::new(6, |i: int| 0u8)),
                voting_proposal_count: 0,
                authority: Some(realm_authority),
                name,
                reserved_v2: crate::wire::array_of::<128>(Seq::new(128, |i: int| 0u8)),
            },
        )
    }
}

/// Creates the realm of the given name.
#[verifier::rlimit(50)]
pub fn create_realm(
    program_id: &Pubkey,
    realm_info: &AccountInfo,
    name: String,
    community_mint: &Pubkey,
    council_mint: Option<Pubkey>,
    realm_authority: &Pubkey,
    config_args: &RealmConfigArgs,
) -> (r: Result<Realm, ProgramError>)
    ensures
        realm_result(
            r,
            create_realm_result(
                *program_id,
                realm_info,
                name@,
                *community_mint,
                council_mint,
                *realm_authority,
                *config_args,
            ),
        ),
{
    if !realm_info.data_is_empty() {
        return Err(ProgramError::Governance(GovernanceError::RealmAlreadyExists));
    }
    assert_valid_realm_config_args(config_args)?;
    let council_mint = if config_args.use_council_mint {
        match council_mint {
            Some(mint) => Some(mint),
            None => {
                return Err(ProgramError::NotEnoughAccountKeys);
            },
        }
    } else {
        None
    };
    match derive_realm_address(program_id, name.as_str()) {
        Some(address) => {
            if address != realm_info.key {
                return Err(ProgramError::InvalidSeeds);
            }
        },
        None => {
            return Err(ProgramError::InvalidSeeds);
        },
    }
    let reserved = [0u8; 6];
    let reserved_v2 = [0u8; 128];
    proof {
        let s6 = Seq::new(6, |i: int| 0u8);
        let s128 = Seq::new(128, |i: int| 0u8);
        assert(reserved@ =~= s6);
        assert(reserved_v2@ =~= s128);
        crate::wire::lemma_array_of::<6>(s6);
        crate::wire::lemma_array_of::<128>(s128);
    }
    Ok(
        Realm {
            account_type: GovernanceAccountType::Realm,
            community_mint: *community_mint,
            config: RealmConfig {
                use_community_voter_weight_addin: config_args.use_community_voter_weight_addin,
                use_max_community_voter_weight_addin: config_args.use_max_community_voter_weight_addin,
                reserved,
                min_community_weight_to_create_governance: config_args.min_community_weight_to_create_governance,
                community_mint_max_vote_weight_source: config_args.community_mint_max_vote_weight_source,
                council_mint,
            },
            reserved,
            voting_proposal_count: 0,
            authority: Some(*realm_authority),
            name,
            reserved_v2,
        },
    )
}

/// Whether the account is the authority of the realm and signed.
pub open spec fn realm_authority_check(realm: RealmView, realm_authority_info: &AccountInfo) -> Result<
    (),
    ProgramError,
> {
    if realm.authority is None {
        Err(ProgramError::Governance(GovernanceError::RealmHasNoAuthority))
    } else if realm.authority != Some(realm_authority_info.key) {
        Err(ProgramError::Governance(GovernanceError::InvalidAuthorityForRealm))
    } else if !realm_authority_info.is_signer {
        Err(ProgramError::Governance(GovernanceError::RealmAuthorityMustSign))
    } else {
        Ok(())
    }
}

/// What a change of the realm's config comes to. The authority of the realm
/// must have signed, the config must be supported, and the council mint stays
/// what it is.
pub open spec fn set_realm_config_result(
    realm: RealmView,
    realm_authority_info: &AccountInfo,
    config_args: RealmConfigArgs,
    council_mint: Option<Pubkey>,
) -> Result<RealmView, ProgramError> {
    if realm_authority_check(realm, realm_authority_info) is Err {
        Err(realm_authority_check(realm, realm_authority_info)->Err_0)
    } else if realm_config_args_check(config_args) is Err {
        Err(realm_config_args_check(config_args)->Err_0)
    } else if council_mint_of(config_args, council_mint) is Err {
        Err(council_mint_of(config_args, council_mint)->Err_0)
    } else if realm.config.council_mint is Some && realm.config.council_mint != council_mint_of(
        config_args,
        council_mint,
    )->Ok_0 {
        Err(ProgramError::Governance(GovernanceError::RealmCouncilMintChangeIsNotSupported))
    } else {
        Ok(
            RealmView {
                config: RealmConfig {
                    use_community_voter_weight_addin: config_args.use_community_voter_weight_addin,
                    use_max_community_voter_weight_addin: config_args.use_max_community_voter_weight_addin,
                    min_community_weight_to_create_governance: config_args.min_community_weight_to_create_governance,
                    community_mint_max_vote_weight_source: config_args.community_mint_max_vote_weight_source,
                    council_mint: council_mint_of(config_args, council_mint)->Ok_0,
                    ..realm.config
                },
                ..realm
            },
        )
    }
}

fn assert_realm_authority(realm: &Realm, realm_authority_info: &AccountInfo) -> (r: Result<
    (),
    ProgramError,
>)
    ensures
        r == realm_authority_check(realm@, realm_authority_info),
{
    match realm.authority {
        None => {
            return Err(ProgramError::Governance(GovernanceError::RealmHasNoAuthority));
        },
        Some(authority) => {
            if authority != realm_authority_info.key {
                return Err(ProgramError::Governance(GovernanceError::InvalidAuthorityForRealm));
            }
        },
    }
    if !realm_authority_info.is_signer {
        return Err(ProgramError::Governance(GovernanceError::RealmAuthorityMustSign));
    }
    Ok(())
}

/// Sets the config of the realm. The realm is left as it was where the
/// change is refused.
#[verifier::rlimit(50)]
pub fn set_realm_config(
    realm: &mut Realm,
    realm_authority_info: &AccountInfo,
    config_args: &RealmConfigArgs,
    council_mint: Option<Pubkey>,
) -> (r: Result<(), ProgramError>)
    ensures
        match set_realm_config_result(old(realm)@, realm_authority_info, *config_args, council_mint) {
            Ok(view) => r == Ok::<(), ProgramError>(()) && final(realm)@ == view,
            Err(e) => r == Err::<(), ProgramError>(e) && *final(realm) == *old(realm),
        },
{
    assert_realm_authority(realm, realm_authority_info)?;
    assert_valid_realm_config_args(config_args)?;
    let council_mint = if config_args.use_council_mint {
        match council_mint {
            Some(mint) => Some(mint),
            None => {
                return Err(ProgramError::NotEnoughAccountKeys);
            },
        }
    } else {
        None
    };
    match realm.config.council_mint {
        Some(present) => {
            match council_mint {
                Some(mint) => {
                    if mint != present {
                        return Err(
                            ProgramError::Governance(
                                GovernanceError::RealmCouncilMintChangeIsNotSupported,
                            ),
                        );
                    }
                },
                None => {
                    return Err(
                        ProgramError::Governance(
                            GovernanceError::RealmCouncilMintChangeIsNotSupported,
                        ),
                    );
                },
            }
        },
        None => {},
    }
    realm.config.use_community_voter_weight_addin = config_args.use_community_voter_weight_addin;
    realm.config.use_max_community_voter_weight_addin =
        config_args.use_max_community_voter_weight_addin;
    realm.config.min_community_weight_to_create_governance =
        config_args.min_community_weight_to_create_governance;
    realm.config.community_mint_max_vote_weight_source =
        config_args.community_mint_max_vote_weight_source;
    realm.config.council_mint = council_mint;
    Ok(())
}

/// What a change of the realm's authority comes to. The present authority
/// must have signed; a checked change takes only a governance of this realm
/// as the new authority.
pub open spec fn set_realm_authority_result(
    program_id: Pubkey,
    realm_key: Pubkey,
    realm: RealmView,
    realm_authority_info: &AccountInfo,
    action: SetRealmAuthorityAction,
    new_realm_authority_info: Option<&AccountInfo>,
) -> Result<RealmView, ProgramError> {
    if realm_authority_check(realm, realm_authority_info) is Err {
        Err(realm_authority_check(realm, realm_authority_info)->Err_0)
    } else if action == SetRealmAuthorityAction::Remove {
        Ok(RealmView { authority: None, ..realm })
    } else if new_realm_authority_info is None {
        Err(ProgramError::NotEnoughAccountKeys)
    } else if action == SetRealmAuthorityAction::SetChecked
        && crate::governance::governance_data_for_realm(
        program_id,
        new_realm_authority_info->0,
        realm_key,
    ) is Err {
        Err(
            crate::governance::governance_data_for_realm(
                program_id,
                new_realm_authority_info->0,
                realm_key,
            )->Err_0,
        )
    } else {
        Ok(RealmView { authority: Some(new_realm_authority_info->0.key), ..realm })
    }
}

/// Sets or removes the authority of the realm. The realm is left as it was
/// where the change is refused.
pub fn set_realm_authority(
    program_id: &Pubkey,
    realm_key: &Pubkey,
    realm: &mut Realm,
    realm_authority_info: &AccountInfo,
    action: SetRealmAuthorityAction,
    new_realm_authority_info: Option<&AccountInfo>,
) -> (r: Result<(), ProgramError>)
    ensures
        match set_realm_authority_result(
            *program_id,
            *realm_key,
            old(realm)@,
            realm_authority_info,
            action,
            new_realm_authority_info,
        ) {
            Ok(view) => r == Ok::<(), ProgramError>(()) && final(realm)@ == view,
            Err(e) => r == Err::<(), ProgramError>(e) && *final(realm) == *old(realm),
        },
{
    assert_realm_authority(realm, realm_authority_info)?;
    match action {
        SetRealmAuthorityAction::SetUnchecked | SetRealmAuthorityAction::SetChecked => {
            let new_info = match new_realm_authority_info {
                Some(info) => info,
                None => {
                    return Err(ProgramError::NotEnoughAccountKeys);
                },
            };
            if action == SetRealmAuthorityAction::SetChecked {
                crate::governance::assert_governance_for_realm(program_id, new_info, realm_key)?;
            }
            realm.authority = Some(new_info.key);
        },
        SetRealmAuthorityAction::Remove => {
            realm.authority = None;
        },
    }
    Ok(())
}

/// What the check of realm config args comes to.
pub open spec fn realm_config_args_check(config_args: RealmConfigArgs) -> Result<(), ProgramError> {
    match config_args.community_mint_max_vote_weight_source {
        MintMaxVoteWeightSource::SupplyFraction(fraction) => if 1 <= fraction
            <= SUPPLY_FRACTION_BASE {
            Ok(())
        } else {
            Err(ProgramError::Governance(GovernanceError::InvalidMaxVoteWeightSupplyFraction))
        },
        MintMaxVoteWeightSource::Absolute(_) => Err(
            ProgramError::Governance(GovernanceError::MintMaxVoteWeightSourceNotSupported),
        ),
    }
}

/// Asserts given realm config args are correct
pub fn assert_valid_realm_config_args(config_args: &RealmConfigArgs) -> (r: Result<
    (),
    ProgramError,
>)
    ensures
        r == realm_config_args_check(*config_args),
{
    match config_args.community_mint_max_vote_weight_source {
        MintMaxVoteWeightSource::SupplyFraction(fraction) => {
            if !(1 <= fraction && fraction <= SUPPLY_FRACTION_BASE) {
                return Err(
                    ProgramError::Governance(GovernanceError::InvalidMaxVoteWeightSupplyFraction),
                );
            }
        },
        MintMaxVoteWeightSource::Absolute(_) => {
            return Err(
                ProgramError::Governance(GovernanceError::MintMaxVoteWeightSourceNotSupported),
            );
        },
    }
    Ok(())
}

// ---------------------------------------------------------------------------
// Reading undoes writing
// ---------------------------------------------------------------------------

/// A realm config is read back from the bytes it is written as.
#[verifier::rlimit(50)]
pub proof fn lemma_realm_config_round_trip(c: RealmConfig, rest: Seq<u8>)
    ensures
        parse_realm_config(wire_realm_config(c) + rest) == Some((c, rest)),
        wire_realm_config(c).len() == if c.council_mint is Some { 58int } else { 26int },
{
    let t5 = wire_option_pubkey(c.council_mint) + rest;
    let t4 = wire_max_vote_weight_source(c.community_mint_max_vote_weight_source) + t5;
    let t3 = wire_u64(c.min_community_weight_to_create_governance) + t4;
    let t2 = c.reserved@ + t3;
    let t1 = wire_bool(c.use_max_community_voter_weight_addin) + t2;
    crate::wire::lemma_bool_round_trip(c.use_community_voter_weight_addin, t1);
    crate::wire::lemma_bool_round_trip(c.use_max_community_voter_weight_addin, t2);
    crate::wire::lemma_array_round_trip::<6>(c.reserved, t3);
    crate::wire::lemma_u64_round_trip(c.min_community_weight_to_create_governance, t4);
    crate::enums::lemma_max_vote_weight_source_round_trip(
        c.community_mint_max_vote_weight_source,
        t5,
    );
    crate::wire::lemma_option_pubkey_round_trip(c.council_mint, rest);
    crate::wire::lemma_concat_assoc(wire_bool(c.use_community_voter_weight_addin), wire_bool(c.use_max_community_voter_weight_addin), t2);
    crate::wire::lemma_concat_assoc(wire_bool(c.use_community_voter_weight_addin) + wire_bool(c.use_max_community_voter_weight_addin), c.reserved@, t3);
    crate::wire::lemma_concat_assoc(wire_bool(c.use_community_voter_weight_addin) + wire_bool(c.use_max_community_voter_weight_addin) + c.reserved@, wire_u64(c.min_community_weight_to_create_governance), t4);
    crate::wire::lemma_concat_assoc(wire_bool(c.use_community_voter_weight_addin) + wire_bool(c.use_max_community_voter_weight_addin) + c.reserved@ + wire_u64(c.min_community_weight_to_create_governance), wire_max_vote_weight_source(c.community_mint_max_vote_weight_source), t5);
    crate::wire::lemma_concat_assoc(wire_bool(c.use_community_voter_weight_addin) + wire_bool(c.use_max_community_voter_weight_addin) + c.reserved@ + wire_u64(c.min_community_weight_to_create_governance) + wire_max_vote_weight_source(c.community_mint_max_vote_weight_source), wire_option_pubkey(c.council_mint), rest);
}

/// A realm whose name fits a length field is read back from the bytes it is
/// written as, whatever follows them: what `serialize` writes, `deserialize`
/// reads.
#[verifier::rlimit(50)]
pub proof fn lemma_realm_round_trip(r: RealmView, rest: Seq<u8>)
    requires
        encode_utf8(r.name).len() <= u32::MAX,
    ensures
        parse_realm(wire_realm(r) + rest) == Some((r, rest)),
{
    let t7 = r.reserved_v2@ + rest;
    let t6 = wire_string(r.name) + t7;
    let t5 = wire_option_pubkey(r.authority) + t6;
    let t4 = wire_u16(r.voting_proposal_count) + t5;
    let t3 = r.reserved@ + t4;
    let t2 = wire_realm_config(r.config) + t3;
    let t1 = wire_pubkey(r.community_mint) + t2;
    crate::enums::lemma_account_type_round_trip(r.account_type, t1);
    crate::wire::lemma_pubkey_round_trip(r.community_mint, t2);
    lemma_realm_config_round_trip(r.config, t3);
    crate::wire::lemma_array_round_trip::<6>(r.reserved, t4);
    crate::wire::lemma_u16_round_trip(r.voting_proposal_count, t5);
    crate::wire::lemma_option_pubkey_round_trip(r.authority, t6);
    crate::wire::lemma_string_round_trip(r.name, t7);
    crate::wire::lemma_array_round_trip::<128>(r.reserved_v2, rest);
    crate::wire::lemma_concat_assoc(wire_account_type(r.account_type), wire_pubkey(r.community_mint), t2);
    crate::wire::lemma_concat_assoc(wire_account_type(r.account_type) + wire_pubkey(r.community_mint), wire_realm_config(r.config), t3);
    crate::wire::lemma_concat_assoc(wire_account_type(r.account_type) + wire_pubkey(r.community_mint) + wire_realm_config(r.config), r.reserved@, t4);
    crate::wire::lemma_concat_assoc(wire_account_type(r.account_type) + wire_pubkey(r.community_mint) + wire_realm_config(r.config) + r.reserved@, wire_u16(r.voting_proposal_count), t5);
    crate::wire::lemma_concat_assoc(wire_account_type(r.account_type) + wire_pubkey(r.community_mint) + wire_realm_config(r.config) + r.reserved@ + wire_u16(r.voting_proposal_count), wire_option_pubkey(r.authority), t6);
    crate::wire::lemma_concat_assoc(wire_account_type(r.account_type) + wire_pubkey(r.community_mint) + wire_realm_config(r.config) + r.reserved@ + wire_u16(r.voting_proposal_count) + wire_option_pubkey(r.authority), wire_string(r.name), t7);
    crate::wire::lemma_concat_assoc(wire_account_type(r.account_type) + wire_pubkey(r.community_mint) + wire_realm_config(r.config) + r.reserved@ + wire_u16(r.voting_proposal_count) + wire_option_pubkey(r.authority) + wire_string(r.name), r.reserved_v2@, rest);
}

/// The account of a realm is large enough for the realm: what is written of
/// a realm is never longer than its name and 264 bytes, and exactly as long
/// where the realm has a council mint and an authority.
pub proof fn lemma_realm_max_size(r: RealmView)
    ensures
        wire_realm(r).len() <= encode_utf8(r.name).len() + REALM_FIXED_SIZE,
        r.config.council_mint is Some && r.authority is Some ==> wire_realm(r).len()
            == encode_utf8(r.name).len() + REALM_FIXED_SIZE,
{
    let empty = Seq::<u8>::empty();
    lemma_realm_config_round_trip(r.config, empty);
    crate::wire::lemma_u16_round_trip(r.voting_proposal_count, empty);
    crate::wire::lemma_option_pubkey_round_trip(r.authority, empty);
    crate::wire::lemma_u32_round_trip(encode_utf8(r.name).len() as u32, empty);
    crate::wire::lemma_array_round_trip::<6>(r.reserved, empty);
    crate::wire::lemma_array_round_trip::<128>(r.reserved_v2, empty);
}

} // verus!
