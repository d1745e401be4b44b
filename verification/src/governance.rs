//! Governance: the voting authority over one governed resource of a realm.

use vstd::prelude::*;

use crate::account::{account_check, account_type_of, assert_account_exists, get_account_type, AccountInfo};
use crate::enums::{
    parse_account_type, parse_vote_threshold, parse_vote_tipping, read_account_type,
    read_vote_threshold, read_vote_tipping, wire_account_type, wire_vote_threshold,
    wire_vote_tipping, write_account_type, write_vote_threshold, write_vote_tipping,
    GovernanceAccountType, VoteThresholdPercentage, VoteTipping,
};
use crate::error::{GovernanceError, GovernanceToolsError, ProgramError};
use crate::pubkey::{derive_address, seeds_of, Pubkey};
use crate::realm::{
    assert_is_valid_realm, create_authority_check, get_realm_data, realm_check, realm_data,
};
use crate::wire::{
    parse_array, parse_pubkey, parse_u16, parse_u32, parse_u64, read_array, read_pubkey,
    read_u16, read_u32, read_u64, reads, rest_of, value_of, wire_pubkey, wire_u16, wire_u32,
    wire_u64, write_pubkey, write_slice, write_u16, write_u32, write_u64, Parsed,
};

verus! {

/// Tag of the address of a governance over any account: `account-governance`.
pub const ACCOUNT_GOVERNANCE_SEED: [u8; 18] = [
    97, 99, 99, 111, 117, 110, 116, 45, 103, 111, 118, 101, 114, 110, 97, 110, 99, 101,
];

/// Tag of the address of a governance over a program: `program-governance`.
pub const PROGRAM_GOVERNANCE_SEED: [u8; 18] = [
    112, 114, 111, 103, 114, 97, 109, 45, 103, 111, 118, 101, 114, 110, 97, 110, 99, 101,
];

/// Tag of the address of a governance over a mint: `mint-governance`.
pub const MINT_GOVERNANCE_SEED: [u8; 15] = [
    109, 105, 110, 116, 45, 103, 111, 118, 101, 114, 110, 97, 110, 99, 101,
];

/// Tag of the address of a governance over a token account: `token-governance`.
pub const TOKEN_GOVERNANCE_SEED: [u8; 16] = [
    116, 111, 107, 101, 110, 45, 103, 111, 118, 101, 114, 110, 97, 110, 99, 101,
];

/// Governance config
#[derive(Clone, Copy, Debug, PartialEq, Eq, Structural)]
pub struct GovernanceConfig {
    /// The type of the vote threshold used for voting
    pub vote_threshold_percentage: VoteThresholdPercentage,
    /// Minimum community weight a governance token owner must possess to be
    /// able to create a proposal
    pub min_community_weight_to_create_proposal: u64,
    /// Minimum waiting time in seconds for a transaction to be executed after
    /// proposal is voted on
    pub min_transaction_hold_up_time: u32,
    /// Time limit in seconds for proposal to be open for voting
    pub max_voting_time: u32,
    /// Conditions under which a vote will complete early
    pub vote_tipping: VoteTipping,
    /// The time period in seconds within which a Proposal can be still
    /// cancelled after being voted on
    pub proposal_cool_off_time: u32,
    /// Minimum council weight a governance token owner must possess to be
    /// able to create a proposal
    pub min_council_weight_to_create_proposal: u64,
}

/// Governance Account
#[derive(Clone, Copy, Debug, PartialEq, Eq)]
pub struct Governance {
    /// Account type. It can be Uninitialized, Governance, ProgramGovernance,
    /// TokenGovernance or MintGovernance
    pub account_type: GovernanceAccountType,
    /// Governance Realm
    pub realm: Pubkey,
    /// Account governed by this Governance and/or PDA identity seed
    pub governed_account: Pubkey,
    /// Running count of proposals
    pub proposals_count: u32,
    /// Governance config
    pub config: GovernanceConfig,
    /// Reserved space for future versions
    pub reserved: [u8; 6],
    /// The number of proposals in voting state in the Governance
    pub voting_proposal_count: u16,
    /// Reserved space for later versions
    pub reserved_v2: [u8; 128],
}

// ---------------------------------------------------------------------------
// Persisted layout
// ---------------------------------------------------------------------------

pub open spec fn wire_governance_config(c: GovernanceConfig) -> Seq<u8> {
    wire_vote_threshold(c.vote_threshold_percentage) + wire_u64(
        c.min_community_weight_to_create_proposal,
    ) + wire_u32(c.min_transaction_hold_up_time) + wire_u32(c.max_voting_time)
        + wire_vote_tipping(c.vote_tipping) + wire_u32(c.proposal_cool_off_time) + wire_u64(
        c.min_council_weight_to_create_proposal,
    )
}

pub open spec fn parse_governance_config(s: Seq<u8>) -> Parsed<GovernanceConfig> {
    let a = parse_vote_threshold(s);
    let b = parse_u64(rest_of(a));
    let c = parse_u32(rest_of(b));
    let d = parse_u32(rest_of(c));
    let e = parse_vote_tipping(rest_of(d));
    let f = parse_u32(rest_of(e));
    let g = parse_u64(rest_of(f));
    if a is Some && b is Some && c is Some && d is Some && e is Some && f is Some && g is Some {
        Some(
            (
                GovernanceConfig {
                    vote_threshold_percentage: value_of(a),
                    min_community_weight_to_create_proposal: value_of(b),
                    min_transaction_hold_up_time: value_of(c),
                    max_voting_time: value_of(d),
                    vote_tipping: value_of(e),
                    proposal_cool_off_time: value_of(f),
                    min_council_weight_to_create_proposal: value_of(g),
                },
                rest_of(g),
            ),
        )
    } else {
        None
    }
}

pub open spec fn wire_governance(g: Governance) -> Seq<u8> {
    wire_account_type(g.account_type) + wire_pubkey(g.realm) + wire_pubkey(g.governed_account)
        + wire_u32(g.proposals_count) + wire_governance_config(g.config) + g.reserved@ + wire_u16(
        g.voting_proposal_count,
    ) + g.reserved_v2@
}

pub open spec fn parse_governance(s: Seq<u8>) -> Parsed<Governance> {
    let a = parse_account_type(s);
    let b = parse_pubkey(rest_of(a));
    let c = parse_pubkey(rest_of(b));
    let d = parse_u32(rest_of(c));
    let e = parse_governance_config(rest_of(d));
    let f = parse_array::<6>(rest_of(e));
    let g = parse_u16(rest_of(f));
    let h = parse_array::<128>(rest_of(g));
    if a is Some && b is Some && c is Some && d is Some && e is Some && f is Some && g is Some
        && h is Some {
        Some(
            (
                Governance {
                    account_type: value_of(a),
                    realm: value_of(b),
                    governed_account: value_of(c),
                    proposals_count: value_of(d),
                    config: value_of(e),
                    reserved: value_of(f),
                    voting_proposal_count: value_of(g),
                    reserved_v2: value_of(h),
                },
                rest_of(h),
            ),
        )
    } else {
        None
    }
}

pub(crate) fn read_governance_config(data: &[u8], pos: usize) -> (r: Option<(GovernanceConfig, usize)>)
    requires
        pos <= data@.len(),
    ensures
        reads(r, data@, pos, parse_governance_config(data@.skip(pos as int))),
{
    let (a, pos) = read_vote_threshold(data, pos)?;
    let (b, pos) = read_u64(data, pos)?;
    let (c, pos) = read_u32(data, pos)?;
    let (d, pos) = read_u32(data, pos)?;
    let (e, pos) = read_vote_tipping(data, pos)?;
    let (f, pos) = read_u32(data, pos)?;
    let (g, pos) = read_u64(data, pos)?;
    Some(
        (
            GovernanceConfig {
                vote_threshold_percentage: a,
                min_community_weight_to_create_proposal: b,
                min_transaction_hold_up_time: c,
                max_voting_time: d,
                vote_tipping: e,
                proposal_cool_off_time: f,
                min_council_weight_to_create_proposal: g,
            },
            pos,
        ),
    )
}

pub(crate) fn write_governance_config(buf: &mut Vec<u8>, c: &GovernanceConfig)
    ensures
        final(buf)@ == old(buf)@ + wire_governance_config(*c),
{
    write_vote_threshold(buf, &c.vote_threshold_percentage);
    write_u64(buf, c.min_community_weight_to_create_proposal);
    write_u32(buf, c.min_transaction_hold_up_time);
    write_u32(buf, c.max_voting_time);
    write_vote_tipping(buf, &c.vote_tipping);
    write_u32(buf, c.proposal_cool_off_time);
    write_u64(buf, c.min_council_weight_to_create_proposal);
    assert(buf@ =~= old(buf)@ + wire_governance_config(*c));
}

/// Whether the type is one of the four kinds of governance.
pub open spec fn is_governance_kind(account_type: GovernanceAccountType) -> bool {
    account_type == GovernanceAccountType::Governance || account_type
        == GovernanceAccountType::ProgramGovernance || account_type
        == GovernanceAccountType::MintGovernance || account_type
        == GovernanceAccountType::TokenGovernance
}

/// Checks if the given account type is one of the Governance V2 account types
pub fn is_governance_v2_account_type(account_type: &GovernanceAccountType) -> (r: bool)
    ensures
        r == is_governance_kind(*account_type),
{
    match account_type {
        GovernanceAccountType::Governance
        | GovernanceAccountType::ProgramGovernance
        | GovernanceAccountType::MintGovernance
        | GovernanceAccountType::TokenGovernance => true,
        GovernanceAccountType::Uninitialized
        | GovernanceAccountType::Realm
        | GovernanceAccountType::RealmConfig
        | GovernanceAccountType::TokenOwnerRecord
        | GovernanceAccountType::Proposal
        | GovernanceAccountType::SignatoryRecord
        | GovernanceAccountType::ProposalTransaction
        | GovernanceAccountType::VoteRecord
        | GovernanceAccountType::ProgramMetadata => false,
    }
}

// ---------------------------------------------------------------------------
// Addresses
// ---------------------------------------------------------------------------

/// The tag that the address of a governance of this kind is derived from.
pub open spec fn governance_tag(account_type: GovernanceAccountType) -> Seq<u8> {
    match account_type {
        GovernanceAccountType::ProgramGovernance => PROGRAM_GOVERNANCE_SEED@,
        GovernanceAccountType::MintGovernance => MINT_GOVERNANCE_SEED@,
        GovernanceAccountType::TokenGovernance => TOKEN_GOVERNANCE_SEED@,
        _ => ACCOUNT_GOVERNANCE_SEED@,
    }
}

/// The seeds of a governance: the tag of its kind, the realm, the governed
/// account.
pub open spec fn governance_seeds(
    account_type: GovernanceAccountType,
    realm: Pubkey,
    governed_account: Pubkey,
) -> Seq<Seq<u8>> {
    seq![governance_tag(account_type), realm@, governed_account@]
}

/// The address of the governance of that kind over the governed account.
pub open spec fn governance_address(
    program_id: Pubkey,
    account_type: GovernanceAccountType,
    realm: Pubkey,
    governed_account: Pubkey,
) -> Option<Pubkey> {
    match derive_address(governance_seeds(account_type, realm, governed_account), program_id) {
        Some((address, _)) => Some(address),
        None => None,
    }
}

fn find_address(seeds: [&[u8]; 3], program_id: &Pubkey) -> (r: Option<Pubkey>)
    ensures
        r == match derive_address(seeds_of(seeds), *program_id) {
            Some((address, _)) => Some(address),
            None => None,
        },
{
    match Pubkey::try_find_address(&seeds, program_id) {
        Some((address, _)) => Some(address),
        None => None,
    }
}

/// Returns ProgramGovernance PDA seeds
pub fn get_program_governance_address_seeds<'a>(
    realm: &'a Pubkey,
    governed_program: &'a Pubkey,
) -> (r: [&'a [u8]; 3])
    ensures
        seeds_of(r) == governance_seeds(
            GovernanceAccountType::ProgramGovernance,
            *realm,
            *governed_program,
        ),
{
    let tag: &'static [u8; 18] = &PROGRAM_GOVERNANCE_SEED;
    let r = [tag.as_slice(), realm.as_ref(), governed_program.as_ref()];
    assert(seeds_of(r) =~= governance_seeds(
        GovernanceAccountType::ProgramGovernance,
        *realm,
        *governed_program,
    ));
    r
}

/// Derives the address once, where there is one.
pub(crate) fn derive_program_governance_address(
    program_id: &Pubkey,
    realm: &Pubkey,
    governed_program: &Pubkey,
) -> (r: Option<Pubkey>)
    ensures
        r == governance_address(
            *program_id,
            GovernanceAccountType::ProgramGovernance,
            *realm,
            *governed_program,
        ),
{
    find_address(get_program_governance_address_seeds(realm, governed_program), program_id)
}

/// Returns ProgramGovernance PDA address
pub fn get_program_governance_address(
    program_id: &Pubkey,
    realm: &Pubkey,
    governed_program: &Pubkey,
) -> (r: Pubkey)
    requires
        governance_address(
            *program_id,
            GovernanceAccountType::ProgramGovernance,
            *realm,
            *governed_program,
        ) is Some,
    ensures
        Some(r) == governance_address(
            *program_id,
            GovernanceAccountType::ProgramGovernance,
            *realm,
            *governed_program,
        ),
{
    let seeds = get_program_governance_address_seeds(realm, governed_program);
    Pubkey::find_address(&seeds, program_id).0
}

/// Returns ProgramGovernance PDA address, where there is one.
pub fn try_get_program_governance_address(
    program_id: &Pubkey,
    realm: &Pubkey,
    governed_program: &Pubkey,
) -> (r: Option<Pubkey>)
    ensures
        r == governance_address(
            *program_id,
            GovernanceAccountType::ProgramGovernance,
            *realm,
            *governed_program,
        ),
{
    match derive_program_governance_address(program_id, realm, governed_program) {
        Some(_) => Some(get_program_governance_address(program_id, realm, governed_program)),
        None => None,
    }
}

/// Returns MintGovernance PDA seeds
pub fn get_mint_governance_address_seeds<'a>(realm: &'a Pubkey, governed_mint: &'a Pubkey) -> (r:
    [&'a [u8]; 3])
    ensures
        seeds_of(r) == governance_seeds(
            GovernanceAccountType::MintGovernance,
            *realm,
            *governed_mint,
        ),
{
    let tag: &'static [u8; 15] = &MINT_GOVERNANCE_SEED;
    let r = [tag.as_slice(), realm.as_ref(), governed_mint.as_ref()];
    assert(seeds_of(r) =~= governance_seeds(
        GovernanceAccountType::MintGovernance,
        *realm,
        *governed_mint,
    ));
    r
}

/// Derives the address once, where there is one.
pub(crate) fn derive_mint_governance_address(
    program_id: &Pubkey,
    realm: &Pubkey,
    governed_mint: &Pubkey,
) -> (r: Option<Pubkey>)
    ensures
        r == governance_address(
            *program_id,
            GovernanceAccountType::MintGovernance,
            *realm,
            *governed_mint,
        ),
{
    find_address(get_mint_governance_address_seeds(realm, governed_mint), program_id)
}

/// Returns MintGovernance PDA address
pub fn get_mint_governance_address(
    program_id: &Pubkey,
    realm: &Pubkey,
    governed_mint: &Pubkey,
) -> (r: Pubkey)
    requires
        governance_address(
            *program_id,
            GovernanceAccountType::MintGovernance,
            *realm,
            *governed_mint,
        ) is Some,
    ensures
        Some(r) == governance_address(
            *program_id,
            GovernanceAccountType::MintGovernance,
            *realm,
            *governed_mint,
        ),
{
    let seeds = get_mint_governance_address_seeds(realm, governed_mint);
    Pubkey::find_address(&seeds, program_id).0
}

/// Returns MintGovernance PDA address, where there is one.
pub fn try_get_mint_governance_address(
    program_id: &Pubkey,
    realm: &Pubkey,
    governed_mint: &Pubkey,
) -> (r: Option<Pubkey>)
    ensures
        r == governance_address(
            *program_id,
            GovernanceAccountType::MintGovernance,
            *realm,
            *governed_mint,
        ),
{
    match derive_mint_governance_address(program_id, realm, governed_mint) {
        Some(_) => Some(get_mint_governance_address(program_id, realm, governed_mint)),
        None => None,
    }
}

/// Returns TokenGovernance PDA seeds
pub fn get_token_governance_address_seeds<'a>(realm: &'a Pubkey, governed_token: &'a Pubkey) -> (r:
    [&'a [u8]; 3])
    ensures
        seeds_of(r) == governance_seeds(
            GovernanceAccountType::TokenGovernance,
            *realm,
            *governed_token,
        ),
{
    let tag: &'static [u8; 16] = &TOKEN_GOVERNANCE_SEED;
    let r = [tag.as_slice(), realm.as_ref(), governed_token.as_ref()];
    assert(seeds_of(r) =~= governance_seeds(
        GovernanceAccountType::TokenGovernance,
        *realm,
        *governed_token,
    ));
    r
}

/// Derives the address once, where there is one.
pub(crate) fn derive_token_governance_address(
    program_id: &Pubkey,
    realm: &Pubkey,
    governed_token: &Pubkey,
) -> (r: Option<Pubkey>)
    ensures
        r == governance_address(
            *program_id,
            GovernanceAccountType::TokenGovernance,
            *realm,
            *governed_token,
        ),
{
    find_address(get_token_governance_address_seeds(realm, governed_token), program_id)
}

/// Returns TokenGovernance PDA address
pub fn get_token_governance_address(
    program_id: &Pubkey,
    realm: &Pubkey,
    governed_token: &Pubkey,
) -> (r: Pubkey)
    requires
        governance_address(
            *program_id,
            GovernanceAccountType::TokenGovernance,
            *realm,
            *governed_token,
        ) is Some,
    ensures
        Some(r) == governance_address(
            *program_id,
            GovernanceAccountType::TokenGovernance,
            *realm,
            *governed_token,
        ),
{
    let seeds = get_token_governance_address_seeds(realm, governed_token);
    Pubkey::find_address(&seeds, program_id).0
}

/// Returns TokenGovernance PDA address, where there is one.
pub fn try_get_token_governance_address(
    program_id: &Pubkey,
    realm: &Pubkey,
    governed_token: &Pubkey,
) -> (r: Option<Pubkey>)
    ensures
        r == governance_address(
            *program_id,
            GovernanceAccountType::TokenGovernance,
            *realm,
            *governed_token,
        ),
{
    match derive_token_governance_address(program_id, realm, governed_token) {
        Some(_) => Some(get_token_governance_address(program_id, realm, governed_token)),
        None => None,
    }
}

/// Returns Governance PDA seeds
pub fn get_governance_address_seeds<'a>(realm: &'a Pubkey, governed_account: &'a Pubkey) -> (r:
    [&'a [u8]; 3])
    ensures
        seeds_of(r) == governance_seeds(
            GovernanceAccountType::Governance,
            *realm,
            *governed_account,
        ),
{
    let tag: &'static [u8; 18] = &ACCOUNT_GOVERNANCE_SEED;
    let r = [tag.as_slice(), realm.as_ref(), governed_account.as_ref()];
    assert(seeds_of(r) =~= governance_seeds(
        GovernanceAccountType::Governance,
        *realm,
        *governed_account,
    ));
    r
}

/// Derives the address once, where there is one.
pub(crate) fn derive_governance_address(
    program_id: &Pubkey,
    realm: &Pubkey,
    governed_account: &Pubkey,
) -> (r: Option<Pubkey>)
    ensures
        r == governance_address(
            *program_id,
            GovernanceAccountType::Governance,
            *realm,
            *governed_account,
        ),
{
    find_address(get_governance_address_seeds(realm, governed_account), program_id)
}

/// Returns Governance PDA address
pub fn get_governance_address(
    program_id: &Pubkey,
    realm: &Pubkey,
    governed_account: &Pubkey,
) -> (r: Pubkey)
    requires
        governance_address(
            *program_id,
            GovernanceAccountType::Governance,
            *realm,
            *governed_account,
        ) is Some,
    ensures
        Some(r) == governance_address(
            *program_id,
            GovernanceAccountType::Governance,
            *realm,
            *governed_account,
        ),
{
    let seeds = get_governance_address_seeds(realm, governed_account);
    Pubkey::find_address(&seeds, program_id).0
}

/// Returns Governance PDA address, where there is one.
pub fn try_get_governance_address(
    program_id: &Pubkey,
    realm: &Pubkey,
    governed_account: &Pubkey,
) -> (r: Option<Pubkey>)
    ensures
        r == governance_address(
            *program_id,
            GovernanceAccountType::Governance,
            *realm,
            *governed_account,
        ),
{
    match derive_governance_address(program_id, realm, governed_account) {
        Some(_) => Some(get_governance_address(program_id, realm, governed_account)),
        None => None,
    }
}

impl Governance {
    pub fn is_initialized(&self) -> (r: bool)
        ensures
            r == is_governance_kind(self.account_type),
    {
        is_governance_v2_account_type(&self.account_type)
    }

    /// Returns Governance PDA seeds
    pub fn get_governance_address_seeds(&self) -> (r: Result<[&[u8]; 3], ProgramError>)
        ensures
            is_governance_kind(self.account_type) ==> r is Ok && seeds_of(r->Ok_0)
                == governance_seeds(self.account_type, self.realm, self.governed_account),
            !is_governance_kind(self.account_type) ==> r is Err && r->Err_0
                == ProgramError::Tools(GovernanceToolsError::InvalidAccountType),
    {
        let seeds = match self.account_type {
            GovernanceAccountType::Governance => {
                get_governance_address_seeds(&self.realm, &self.governed_account)
            },
            GovernanceAccountType::ProgramGovernance => {
                get_program_governance_address_seeds(&self.realm, &self.governed_account)
            },
            GovernanceAccountType::MintGovernance => {
                get_mint_governance_address_seeds(&self.realm, &self.governed_account)
            },
            GovernanceAccountType::TokenGovernance => {
                get_token_governance_address_seeds(&self.realm, &self.governed_account)
            },
            GovernanceAccountType::Uninitialized
            | GovernanceAccountType::RealmConfig
            | GovernanceAccountType::VoteRecord
            | GovernanceAccountType::ProposalTransaction
            | GovernanceAccountType::Proposal
            | GovernanceAccountType::ProgramMetadata
            | GovernanceAccountType::Realm
            | GovernanceAccountType::TokenOwnerRecord
            | GovernanceAccountType::SignatoryRecord => {
                return Err(ProgramError::Tools(GovernanceToolsError::InvalidAccountType));
            },
        };
        Ok(seeds)
    }

    /// The address of the governance and the bump seed that signs for it,
    /// where its kind and keys derive one: the instructions of a passed
    /// proposal are signed with the governance's seeds and this bump seed.
    pub fn try_get_address_and_bump(&self, program_id: &Pubkey) -> (r: Option<(Pubkey, u8)>)
        ensures
            r == if is_governance_kind(self.account_type) {
                derive_address(
                    governance_seeds(self.account_type, self.realm, self.governed_account),
                    *program_id,
                )
            } else {
                None
            },
    {
        match self.get_governance_address_seeds() {
            Ok(seeds) => Pubkey::try_find_address(&seeds, program_id),
            Err(_) => None,
        }
    }

    /// Reads the governance at the front of `data`; what follows it is
    /// ignored.
    pub fn deserialize(data: &[u8]) -> (r: Option<Governance>)
        ensures
            r == match parse_governance(data@) {
                Some((g, _)) => Some(g),
                None => None,
            },
    {
        assert(data@.skip(0) =~= data@);
        let (account_type, pos) = read_account_type(data, 0)?;
        let (realm, pos) = read_pubkey(data, pos)?;
        let (governed_account, pos) = read_pubkey(data, pos)?;
        let (proposals_count, pos) = read_u32(data, pos)?;
        let (config, pos) = read_governance_config(data, pos)?;
        let (reserved, pos) = read_array::<6>(data, pos)?;
        let (voting_proposal_count, pos) = read_u16(data, pos)?;
        let (reserved_v2, _) = read_array::<128>(data, pos)?;
        Some(
            Governance {
                account_type,
                realm,
                governed_account,
                proposals_count,
                config,
                reserved,
                voting_proposal_count,
                reserved_v2,
            },
        )
    }

    /// Serializes account into the target buffer
    pub fn serialize(self, writer: &mut Vec<u8>) -> (r: Result<(), ProgramError>)
        ensures
            r == Ok::<(), ProgramError>(()),
            final(writer)@ == old(writer)@ + wire_governance(self),
    {
        write_account_type(writer, &self.account_type);
        write_pubkey(writer, &self.realm);
        write_pubkey(writer, &self.governed_account);
        write_u32(writer, self.proposals_count);
        write_governance_config(writer, &self.config);
        write_slice(writer, self.reserved.as_slice());
        write_u16(writer, self.voting_proposal_count);
        write_slice(writer, self.reserved_v2.as_slice());
        assert(writer@ =~= old(writer)@ + wire_governance(self));
        Ok(())
    }
}

// ---------------------------------------------------------------------------
// Reading a governance off an account
// ---------------------------------------------------------------------------

/// The governance that the account holds for the program.
pub open spec fn governance_data(program_id: Pubkey, governance_info: &AccountInfo) -> Result<
    Governance,
    ProgramError,
> {
    if account_check(program_id, governance_info) is Err {
        Err(account_check(program_id, governance_info)->Err_0)
    } else if parse_governance(governance_info.data@) is None {
        Err(ProgramError::BorshIoError)
    } else if !is_governance_kind(value_of(parse_governance(governance_info.data@)).account_type) {
        Err(ProgramError::UninitializedAccount)
    } else {
        Ok(value_of(parse_governance(governance_info.data@)))
    }
}

/// Deserializes Governance account and checks owner program
pub fn get_governance_data(program_id: &Pubkey, governance_info: &AccountInfo) -> (r: Result<
    Governance,
    ProgramError,
>)
    ensures
        r == governance_data(*program_id, governance_info),
{
    assert_account_exists(program_id, governance_info)?;
    match Governance::deserialize(governance_info.data.as_slice()) {
        Some(governance) => {
            if !governance.is_initialized() {
                Err(ProgramError::UninitializedAccount)
            } else {
                Ok(governance)
            }
        },
        None => Err(ProgramError::BorshIoError),
    }
}

/// The governance that the account holds, if it belongs to the realm.
pub open spec fn governance_data_for_realm(
    program_id: Pubkey,
    governance_info: &AccountInfo,
    realm: Pubkey,
) -> Result<Governance, ProgramError> {
    match governance_data(program_id, governance_info) {
        Err(e) => Err(e),
        Ok(governance) => if governance.realm != realm {
            Err(ProgramError::Governance(GovernanceError::InvalidRealmForGovernance))
        } else {
            Ok(governance)
        },
    }
}

/// Deserializes Governance account, checks owner program and asserts governance belongs to the given ream
pub fn get_governance_data_for_realm(
    program_id: &Pubkey,
    governance_info: &AccountInfo,
    realm: &Pubkey,
) -> (r: Result<Governance, ProgramError>)
    ensures
        r == governance_data_for_realm(*program_id, governance_info, *realm),
{
    let governance_data = get_governance_data(program_id, governance_info)?;
    if governance_data.realm != *realm {
        return Err(ProgramError::Governance(GovernanceError::InvalidRealmForGovernance));
    }
    Ok(governance_data)
}

/// Checks the given account is a governance account and belongs to the given realm
pub fn assert_governance_for_realm(
    program_id: &Pubkey,
    governance_info: &AccountInfo,
    realm: &Pubkey,
) -> (r: Result<(), ProgramError>)
    ensures
        r == match governance_data_for_realm(*program_id, governance_info, *realm) {
            Ok(_) => Ok::<(), ProgramError>(()),
            Err(e) => Err::<(), ProgramError>(e),
        },
{
    get_governance_data_for_realm(program_id, governance_info, realm)?;
    Ok(())
}

/// What the check of a governance account comes to.
pub open spec fn governance_check(program_id: Pubkey, governance_info: &AccountInfo) -> Result<
    (),
    ProgramError,
> {
    match account_type_of(program_id, governance_info) {
        Err(e) => Err(e),
        Ok(t) => if is_governance_kind(t) {
            Ok(())
        } else {
            Err(ProgramError::Tools(GovernanceToolsError::InvalidAccountType))
        },
    }
}

/// Checks whether the Governance account exists, is initialized and owned by the Governance program
pub fn assert_is_valid_governance(program_id: &Pubkey, governance_info: &AccountInfo) -> (r: Result<
    (),
    ProgramError,
>)
    ensures
        r == governance_check(*program_id, governance_info),
{
    let account_type = get_account_type(program_id, governance_info)?;
    if !is_governance_v2_account_type(&account_type) {
        return Err(ProgramError::Tools(GovernanceToolsError::InvalidAccountType));
    }
    Ok(())
}

// ---------------------------------------------------------------------------
// Configuration
// ---------------------------------------------------------------------------

/// What the check of a governance config comes to: the yes-vote threshold
/// lies in 1..=100, no other threshold is taken, and there is no cool-off
/// time.
pub open spec fn governance_config_check(config: GovernanceConfig) -> Result<(), ProgramError> {
    match config.vote_threshold_percentage {
        VoteThresholdPercentage::YesVote(percentage) => if !(1 <= percentage <= 100) {
            Err(ProgramError::Governance(GovernanceError::InvalidVoteThresholdPercentage))
        } else if config.proposal_cool_off_time > 0 {
            Err(ProgramError::Governance(GovernanceError::ProposalCoolOffTimeNotSupported))
        } else {
            Ok(())
        },
        VoteThresholdPercentage::Quorum(_) => Err(
            ProgramError::Governance(GovernanceError::VoteThresholdPercentageTypeNotSupported),
        ),
    }
}

/// Validates governance config parameters
pub fn assert_is_valid_governance_config(governance_config: &GovernanceConfig) -> (r: Result<
    (),
    ProgramError,
>)
    ensures
        r == governance_config_check(*governance_config),
{
    match governance_config.vote_threshold_percentage {
        VoteThresholdPercentage::YesVote(yes_vote_threshold_percentage) => {
            if !(1 <= yes_vote_threshold_percentage && yes_vote_threshold_percentage <= 100) {
                return Err(
                    ProgramError::Governance(GovernanceError::InvalidVoteThresholdPercentage),
                );
            }
        },
        _ => {
            return Err(
                ProgramError::Governance(GovernanceError::VoteThresholdPercentageTypeNotSupported),
            );
        },
    }
    if governance_config.proposal_cool_off_time > 0 {
        return Err(ProgramError::Governance(GovernanceError::ProposalCoolOffTimeNotSupported));
    }
    Ok(())
}

/// Validates args supplied to create governance account
pub fn assert_valid_create_governance_args(
    program_id: &Pubkey,
    governance_config: &GovernanceConfig,
    realm_info: &AccountInfo,
) -> (r: Result<(), ProgramError>)
    ensures
        r == if realm_check(*program_id, realm_info) is Err {
            realm_check(*program_id, realm_info)
        } else {
            governance_config_check(*governance_config)
        },
{
    assert_is_valid_realm(program_id, realm_info)?;
    assert_is_valid_governance_config(governance_config)?;
    Ok(())
}

// ---------------------------------------------------------------------------
// Creating a governance and changing its config
// ---------------------------------------------------------------------------

/// What creating a governance comes to. The realm and the config must be
/// valid, the one who creates it must be entitled to, and the account must be
/// a new one at the address derived for the kind, the realm and the governed
/// account.
pub open spec fn create_governance_result(
    program_id: Pubkey,
    realm_info: &AccountInfo,
    governance_info: &AccountInfo,
    account_type: GovernanceAccountType,
    governed_account: Pubkey,
    config: GovernanceConfig,
    token_owner_record_info: &AccountInfo,
    create_authority_info: &AccountInfo,
    realm_config_info: Option<&AccountInfo>,
    addin_voter_weight: Option<u64>,
) -> Result<Governance, ProgramError> {
    let authority = create_authority_check(
        realm_data(program_id, realm_info)->Ok_0,
        program_id,
        realm_info.key,
        token_owner_record_info,
        create_authority_info,
        realm_config_info,
        addin_voter_weight,
    );
    if !is_governance_kind(account_type) {
        Err(ProgramError::Tools(GovernanceToolsError::InvalidAccountType))
    } else if realm_check(program_id, realm_info) is Err {
        Err(realm_check(program_id, realm_info)->Err_0)
    } else if governance_config_check(config) is Err {
        Err(governance_config_check(config)->Err_0)
    } else if realm_data(program_id, realm_info) is Err {
        Err(realm_data(program_id, realm_info)->Err_0)
    } else if authority is Err {
        Err(authority->Err_0)
    } else if governance_info.data@.len() != 0 {
        Err(ProgramError::Tools(GovernanceToolsError::AccountAlreadyInitialized))
    } else if governance_address(program_id, account_type, realm_info.key, governed_account)
        != Some(governance_info.key) {
        Err(ProgramError::InvalidSeeds)
    } else {
        Ok(
            Governance {
                account_type,
                realm: realm_info.key,
                governed_account,
                proposals_count: 0,
                config,
                reserved: crate::wire::array_of::<6>(Seq::new(6, |i: int| 0u8)),
                voting_proposal_count: 0,
                reserved_v2: crate::wire::array_of::<128>(Seq::new(128, |i: int| 0u8)),
            },
        )
    }
}

/// Creates a governance of the given kind over `governed_account`.
#[verifier::rlimit(50)]
pub fn create_governance(
    program_id: &Pubkey,
    realm_info: &AccountInfo,
    governance_info: &AccountInfo,
    account_type: GovernanceAccountType,
    governed_account: &Pubkey,
    config: GovernanceConfig,
    token_owner_record_info: &AccountInfo,
    create_authority_info: &AccountInfo,
    realm_config_info: Option<&AccountInfo>,
    addin_voter_weight: Option<u64>,
) -> (r: Result<Governance, ProgramError>)
    ensures
        r == create_governance_result(
            *program_id,
            realm_info,
            governance_info,
            account_type,
            *governed_account,
            config,
            token_owner_record_info,
            create_authority_info,
            realm_config_info,
            addin_voter_weight,
        ),
{
    let seeds = match account_type {
        GovernanceAccountType::Governance => get_governance_address_seeds(
            &realm_info.key,
            governed_account,
        ),
        GovernanceAccountType::ProgramGovernance => get_program_governance_address_seeds(
            &realm_info.key,
            governed_account,
        ),
        GovernanceAccountType::MintGovernance => get_mint_governance_address_seeds(
            &realm_info.key,
            governed_account,
        ),
        GovernanceAccountType::TokenGovernance => get_token_governance_address_seeds(
            &realm_info.key,
            governed_account,
        ),
        _ => {
            return Err(ProgramError::Tools(GovernanceToolsError::InvalidAccountType));
        },
    };
    assert_valid_create_governance_args(program_id, &config, realm_info)?;
    let realm = get_realm_data(program_id, realm_info)?;
    realm.assert_create_authority_can_create_governance(
        program_id,
        &realm_info.key,
        token_owner_record_info,
        create_authority_info,
        realm_config_info,
        addin_voter_weight,
    )?;
    if !governance_info.data_is_empty() {
        return Err(ProgramError::Tools(GovernanceToolsError::AccountAlreadyInitialized));
    }
    match find_address(seeds, program_id) {
        Some(address) => {
            if address != governance_info.key {
                return Err(ProgramError::InvalidSeeds);
            }
        },
        None => {
            return Err(ProgramError::InvalidSeeds);
        },
    }
    let reserved = [0u8; 6];
    let reserved_v2 = [0u8; 128];
    proof {
        let s6 = Seq::new(6, |i: int| 0u8);
        let s128 = Seq::new(128, |i: int| 0u8);
        assert(reserved@ =~= s6);
        assert(reserved_v2@ =~= s128);
        crate::wire::lemma_array_of::<6>(s6);
        crate::wire::lemma_array_of::<128>(s128);
    }
    Ok(
        Governance {
            account_type,
            realm: realm_info.key,
            governed_account: *governed_account,
            proposals_count: 0,
            config,
            reserved,
            voting_proposal_count: 0,
            reserved_v2,
        },
    )
}

/// What a change of a governance's config comes to: the governance itself
/// must have signed, which only a passed proposal brings about, and the new
/// config must be valid.
pub open spec fn set_governance_config_result(
    program_id: Pubkey,
    governance_info: &AccountInfo,
    config: GovernanceConfig,
) -> Result<Governance, ProgramError> {
    if !governance_info.is_signer {
        Err(ProgramError::Governance(GovernanceError::GovernancePdaMustSign))
    } else if governance_config_check(config) is Err {
        Err(governance_config_check(config)->Err_0)
    } else {
        match governance_data(program_id, governance_info) {
            Err(e) => Err(e),
            Ok(governance) => Ok(Governance { config, ..governance }),
        }
    }
}

/// Sets the config of the governance that the account holds, and returns
/// the governance as it is to be written back.
pub fn set_governance_config(
    program_id: &Pubkey,
    governance_info: &AccountInfo,
    config: GovernanceConfig,
) -> (r: Result<Governance, ProgramError>)
    ensures
        r == set_governance_config_result(*program_id, governance_info, config),
{
    if !governance_info.is_signer {
        return Err(ProgramError::Governance(GovernanceError::GovernancePdaMustSign));
    }
    assert_is_valid_governance_config(&config)?;
    let mut governance = get_governance_data(program_id, governance_info)?;
    governance.config = config;
    Ok(governance)
}

/// A governance is created only with a yes-vote threshold from 1 to 100 and
/// without a cool-off time: whatever else is handed over, any other config
/// fails, and with the error that names what is wrong with it.
pub proof fn lemma_threshold_validation(config: GovernanceConfig)
    ensures
        governance_config_check(config) is Ok <==> (config.vote_threshold_percentage matches VoteThresholdPercentage::YesVote(
            p,
        ) && 1 <= p <= 100 && config.proposal_cool_off_time == 0),
        config.vote_threshold_percentage == VoteThresholdPercentage::YesVote(0)
            || config.vote_threshold_percentage == VoteThresholdPercentage::YesVote(101)
            ==> governance_config_check(config) == Err::<(), ProgramError>(
            ProgramError::Governance(GovernanceError::InvalidVoteThresholdPercentage),
        ),
{
}

/// No governance is created with a config that the check refuses.
pub proof fn lemma_create_governance_needs_valid_config(
    program_id: Pubkey,
    realm_info: &AccountInfo,
    governance_info: &AccountInfo,
    account_type: GovernanceAccountType,
    governed_account: Pubkey,
    config: GovernanceConfig,
    token_owner_record_info: &AccountInfo,
    create_authority_info: &AccountInfo,
    realm_config_info: Option<&AccountInfo>,
    addin_voter_weight: Option<u64>,
)
    requires
        governance_config_check(config) is Err,
    ensures
        create_governance_result(
            program_id,
            realm_info,
            governance_info,
            account_type,
            governed_account,
            config,
            token_owner_record_info,
            create_authority_info,
            realm_config_info,
            addin_voter_weight,
        ) is Err,
{
}

/// A governance config is read back from the bytes it is written as.
#[verifier::rlimit(50)]
pub proof fn lemma_governance_config_round_trip(c: GovernanceConfig, rest: Seq<u8>)
    ensures
        parse_governance_config(wire_governance_config(c) + rest) == Some((c, rest)),
        wire_governance_config(c).len() == 31,
{
    let t6 = wire_u64(c.min_council_weight_to_create_proposal) + rest;
    let t5 = wire_u32(c.proposal_cool_off_time) + t6;
    let t4 = wire_vote_tipping(c.vote_tipping) + t5;
    let t3 = wire_u32(c.max_voting_time) + t4;
    let t2 = wire_u32(c.min_transaction_hold_up_time) + t3;
    let t1 = wire_u64(c.min_community_weight_to_create_proposal) + t2;
    crate::enums::lemma_vote_threshold_round_trip(c.vote_threshold_percentage, t1);
    crate::wire::lemma_u64_round_trip(c.min_community_weight_to_create_proposal, t2);
    crate::wire::lemma_u32_round_trip(c.min_transaction_hold_up_time, t3);
    crate::wire::lemma_u32_round_trip(c.max_voting_time, t4);
    crate::enums::lemma_vote_tipping_round_trip(c.vote_tipping, t5);
    crate::wire::lemma_u32_round_trip(c.proposal_cool_off_time, t6);
    crate::wire::lemma_u64_round_trip(c.min_council_weight_to_create_proposal, rest);
    crate::wire::lemma_concat_assoc(wire_vote_threshold(c.vote_threshold_percentage), wire_u64(c.min_community_weight_to_create_proposal), t2);
    crate::wire::lemma_concat_assoc(wire_vote_threshold(c.vote_threshold_percentage) + wire_u64(c.min_community_weight_to_create_proposal), wire_u32(c.min_transaction_hold_up_time), t3);
    crate::wire::lemma_concat_assoc(wire_vote_threshold(c.vote_threshold_percentage) + wire_u64(c.min_community_weight_to_create_proposal) + wire_u32(c.min_transaction_hold_up_time), wire_u32(c.max_voting_time), t4);
    crate::wire::lemma_concat_assoc(wire_vote_threshold(c.vote_threshold_percentage) + wire_u64(c.min_community_weight_to_create_proposal) + wire_u32(c.min_transaction_hold_up_time) + wire_u32(c.max_voting_time), wire_vote_tipping(c.vote_tipping), t5);
    crate::wire::lemma_concat_assoc(wire_vote_threshold(c.vote_threshold_percentage) + wire_u64(c.min_community_weight_to_create_proposal) + wire_u32(c.min_transaction_hold_up_time) + wire_u32(c.max_voting_time) + wire_vote_tipping(c.vote_tipping), wire_u32(c.proposal_cool_off_time), t6);
    crate::wire::lemma_concat_assoc(wire_vote_threshold(c.vote_threshold_percentage) + wire_u64(c.min_community_weight_to_create_proposal) + wire_u32(c.min_transaction_hold_up_time) + wire_u32(c.max_voting_time) + wire_vote_tipping(c.vote_tipping) + wire_u32(c.proposal_cool_off_time), wire_u64(c.min_council_weight_to_create_proposal), rest);
}

/// A governance is read back from the bytes it is written as, whatever
/// follows them: what `serialize` writes, `deserialize` reads.
#[verifier::rlimit(50)]
pub proof fn lemma_governance_round_trip(g: Governance, rest: Seq<u8>)
    ensures
        parse_governance(wire_governance(g) + rest) == Some((g, rest)),
        wire_governance(g).len() == 236,
{
    let t7 = g.reserved_v2@ + rest;
    let t6 = wire_u16(g.voting_proposal_count) + t7;
    let t5 = g.reserved@ + t6;
    let t4 = wire_governance_config(g.config) + t5;
    let t3 = wire_u32(g.proposals_count) + t4;
    let t2 = wire_pubkey(g.governed_account) + t3;
    let t1 = wire_pubkey(g.realm) + t2;
    crate::enums::lemma_account_type_round_trip(g.account_type, t1);
    crate::wire::lemma_pubkey_round_trip(g.realm, t2);
    crate::wire::lemma_pubkey_round_trip(g.governed_account, t3);
    crate::wire::lemma_u32_round_trip(g.proposals_count, t4);
    lemma_governance_config_round_trip(g.config, t5);
    crate::wire::lemma_array_round_trip::<6>(g.reserved, t6);
    crate::wire::lemma_u16_round_trip(g.voting_proposal_count, t7);
    crate::wire::lemma_array_round_trip::<128>(g.reserved_v2, rest);
    crate::wire::lemma_concat_assoc(wire_account_type(g.account_type), wire_pubkey(g.realm), t2);
    crate::wire::lemma_concat_assoc(wire_account_type(g.account_type) + wire_pubkey(g.realm), wire_pubkey(g.governed_account), t3);
    crate::wire::lemma_concat_assoc(wire_account_type(g.account_type) + wire_pubkey(g.realm) + wire_pubkey(g.governed_account), wire_u32(g.proposals_count), t4);
    crate::wire::lemma_concat_assoc(wire_account_type(g.account_type) + wire_pubkey(g.realm) + wire_pubkey(g.governed_account) + wire_u32(g.proposals_count), wire_governance_config(g.config), t5);
    crate::wire::lemma_concat_assoc(wire_account_type(g.account_type) + wire_pubkey(g.realm) + wire_pubkey(g.governed_account) + wire_u32(g.proposals_count) + wire_governance_config(g.config), g.reserved@, t6);
    crate::wire::lemma_concat_assoc(wire_account_type(g.account_type) + wire_pubkey(g.realm) + wire_pubkey(g.governed_account) + wire_u32(g.proposals_count) + wire_governance_config(g.config) + g.reserved@, wire_u16(g.voting_proposal_count), t7);
    crate::wire::lemma_concat_assoc(wire_account_type(g.account_type) + wire_pubkey(g.realm) + wire_pubkey(g.governed_account) + wire_u32(g.proposals_count) + wire_governance_config(g.config) + g.reserved@ + wire_u16(g.voting_proposal_count), g.reserved_v2@, rest);
}

} // verus!
