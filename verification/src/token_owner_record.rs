//! The deposit ledger: one record per realm, governing token mint and owner.

use vstd::prelude::*;

use crate::account::{account_check, assert_account_exists, AccountInfo};
use crate::enums::{
    parse_account_type, read_account_type, wire_account_type, write_account_type,
    GovernanceAccountType,
};
use crate::error::{GovernanceError, ProgramError};
use crate::pubkey::{derive_address, seeds_of, Pubkey, PROGRAM_AUTHORITY_SEED};
use crate::realm::{Realm, RealmView};
use crate::wire::{
    parse_array, parse_option_pubkey, parse_pubkey, parse_u32, parse_u64, parse_u8, read_array,
    read_option_pubkey, read_pubkey, read_u32, read_u64, read_u8, rest_of, value_of,
    wire_option_pubkey, wire_pubkey, wire_u32, wire_u64, wire_u8, write_option_pubkey,
    write_pubkey, write_slice, write_u32, write_u64, write_u8, Parsed,
};

verus! {

/// Governance Token Owner Record: what one owner deposited of one mint in one
/// realm, and the votes and proposals that rest on it.
#[derive(Clone, Copy, Debug, PartialEq, Eq)]
pub struct TokenOwnerRecord {
    /// Governance account type
    pub account_type: GovernanceAccountType,
    /// The Realm the TokenOwnerRecord belongs to
    pub realm: Pubkey,
    /// Governing Token Mint the TokenOwnerRecord holds deposit for
    pub governing_token_mint: Pubkey,
    /// The owner (either single or multisig) of the deposited governing SPL Tokens
    pub governing_token_owner: Pubkey,
    /// The amount of governing tokens deposited into the Realm
    pub governing_token_deposit_amount: u64,
    /// The number of votes cast by TokenOwner but not relinquished yet
    pub unrelinquished_votes_count: u32,
    /// The total number of votes cast by the TokenOwner
    pub total_votes_count: u32,
    /// The number of outstanding proposals the TokenOwner currently owns
    pub outstanding_proposal_count: u8,
    /// Reserved space for future versions
    pub reserved: [u8; 7],
    /// A single account that is allowed to operate governance with the
    /// deposited governing tokens
    pub governance_delegate: Option<Pubkey>,
    /// Reserved space for later versions
    pub reserved_v2: [u8; 128],
}

// ---------------------------------------------------------------------------
// Persisted layout
// ---------------------------------------------------------------------------

pub open spec fn wire_token_owner_record(t: TokenOwnerRecord) -> Seq<u8> {
    wire_account_type(t.account_type) + wire_pubkey(t.realm) + wire_pubkey(t.governing_token_mint)
        + wire_pubkey(t.governing_token_owner) + wire_u64(t.governing_token_deposit_amount)
        + wire_u32(t.unrelinquished_votes_count) + wire_u32(t.total_votes_count) + wire_u8(
        t.outstanding_proposal_count,
    ) + t.reserved@ + wire_option_pubkey(t.governance_delegate) + t.reserved_v2@
}

pub open spec fn parse_token_owner_record(s: Seq<u8>) -> Parsed<TokenOwnerRecord> {
    let a = parse_account_type(s);
    let b = parse_pubkey(rest_of(a));
    let c = parse_pubkey(rest_of(b));
    let d = parse_pubkey(rest_of(c));
    let e = parse_u64(rest_of(d));
    let f = parse_u32(rest_of(e));
    let g = parse_u32(rest_of(f));
    let h = parse_u8(rest_of(g));
    let i = parse_array::<7>(rest_of(h));
    let j = parse_option_pubkey(rest_of(i));
    let k = parse_array::<128>(rest_of(j));
    if a is Some && b is Some && c is Some && d is Some && e is Some && f is Some && g is Some
        && h is Some && i is Some && j is Some && k is Some {
        Some(
            (
                TokenOwnerRecord {
                    account_type: value_of(a),
                    realm: value_of(b),
                    governing_token_mint: value_of(c),
                    governing_token_owner: value_of(d),
                    governing_token_deposit_amount: value_of(e),
                    unrelinquished_votes_count: value_of(f),
                    total_votes_count: value_of(g),
                    outstanding_proposal_count: value_of(h),
                    reserved: value_of(i),
                    governance_delegate: value_of(j),
                    reserved_v2: value_of(k),
                },
                rest_of(k),
            ),
        )
    } else {
        None
    }
}

// ---------------------------------------------------------------------------
// Addresses
// ---------------------------------------------------------------------------

/// The seeds of a record: `governance`, the realm, the mint, the owner.
pub open spec fn token_owner_record_address_seeds(
    realm: Pubkey,
    governing_token_mint: Pubkey,
    governing_token_owner: Pubkey,
) -> Seq<Seq<u8>> {
    seq![PROGRAM_AUTHORITY_SEED@, realm@, governing_token_mint@, governing_token_owner@]
}

/// The address of the record of the owner for the mint in the realm.
pub open spec fn token_owner_record_address(
    program_id: Pubkey,
    realm: Pubkey,
    governing_token_mint: Pubkey,
    governing_token_owner: Pubkey,
) -> Option<Pubkey> {
    match derive_address(
        token_owner_record_address_seeds(realm, governing_token_mint, governing_token_owner),
        program_id,
    ) {
        Some((address, _)) => Some(address),
        None => None,
    }
}

/// Returns TokenOwnerRecord PDA seeds
pub fn get_token_owner_record_address_seeds<'a>(
    realm: &'a Pubkey,
    governing_token_mint: &'a Pubkey,
    governing_token_owner: &'a Pubkey,
) -> (r: [&'a [u8]; 4])
    ensures
        seeds_of(r) == token_owner_record_address_seeds(
            *realm,
            *governing_token_mint,
            *governing_token_owner,
        ),
{
    let tag: &'static [u8; 10] = &PROGRAM_AUTHORITY_SEED;
    let r = [
        tag.as_slice(),
        realm.as_ref(),
        governing_token_mint.as_ref(),
        governing_token_owner.as_ref(),
    ];
    assert(seeds_of(r) =~= token_owner_record_address_seeds(
        *realm,
        *governing_token_mint,
        *governing_token_owner,
    ));
    r
}

/// Derives the address once, where there is one.
pub(crate) fn derive_token_owner_record_address(
    program_id: &Pubkey,
    realm: &Pubkey,
    governing_token_mint: &Pubkey,
    governing_token_owner: &Pubkey,
) -> (r: Option<Pubkey>)
    ensures
        r == token_owner_record_address(
            *program_id,
            *realm,
            *governing_token_mint,
            *governing_token_owner,
        ),
{
    let seeds = get_token_owner_record_address_seeds(
        realm,
        governing_token_mint,
        governing_token_owner,
    );
    match Pubkey::try_find_address(&seeds, program_id) {
        Some((address, _)) => Some(address),
        None => None,
    }
}

/// Returns TokenOwnerRecord PDA address
pub fn get_token_owner_record_address(
    program_id: &Pubkey,
    realm: &Pubkey,
    governing_token_mint: &Pubkey,
    governing_token_owner: &Pubkey,
) -> (r: Pubkey)
    requires
        token_owner_record_address(
            *program_id,
            *realm,
            *governing_token_mint,
            *governing_token_owner,
        ) is Some,
    ensures
        Some(r) == token_owner_record_address(
            *program_id,
            *realm,
            *governing_token_mint,
            *governing_token_owner,
        ),
{
    let seeds = get_token_owner_record_address_seeds(realm, governing_token_mint, governing_token_owner);
    Pubkey::find_address(&seeds, program_id).0
}

/// Returns TokenOwnerRecord PDA address, where there is one.
pub fn try_get_token_owner_record_address(
    program_id: &Pubkey,
    realm: &Pubkey,
    governing_token_mint: &Pubkey,
    governing_token_owner: &Pubkey,
) -> (r: Option<Pubkey>)
    ensures
        r == token_owner_record_address(
            *program_id,
            *realm,
            *governing_token_mint,
            *governing_token_owner,
        ),
{
    match derive_token_owner_record_address(program_id, realm, governing_token_mint, governing_token_owner) {
        Some(_) => Some(get_token_owner_record_address(program_id, realm, governing_token_mint, governing_token_owner)),
        None => None,
    }
}

// ---------------------------------------------------------------------------
// The ledger
// ---------------------------------------------------------------------------

/// The record of a first deposit.
pub open spec fn new_token_owner_record(
    realm: Pubkey,
    governing_token_mint: Pubkey,
    governing_token_owner: Pubkey,
    amount: u64,
) -> TokenOwnerRecord {
    TokenOwnerRecord {
        account_type: GovernanceAccountType::TokenOwnerRecord,
        realm,
        governing_token_mint,
        governing_token_owner,
        governing_token_deposit_amount: amount,
        unrelinquished_votes_count: 0,
        total_votes_count: 0,
        outstanding_proposal_count: 0,
        reserved: crate::wire::array_of::<7>(Seq::new(7, |i: int| 0u8)),
        governance_delegate: None,
        reserved_v2: crate::wire::array_of::<128>(Seq::new(128, |i: int| 0u8)),
    }
}

/// What a deposit by `owner` makes of the record found at the address
/// derived for the realm, the mint and the owner: a first deposit creates the
/// record, and only if the owner signed; a later one adds to the amount, and
/// fails rather than wrap.
pub open spec fn deposit_result(
    existing: Option<TokenOwnerRecord>,
    realm: Pubkey,
    governing_token_mint: Pubkey,
    governing_token_owner: Pubkey,
    owner_is_signer: bool,
    amount: u64,
) -> Result<TokenOwnerRecord, ProgramError> {
    match existing {
        None => if !owner_is_signer {
            Err(ProgramError::Governance(GovernanceError::GoverningTokenOwnerMustSign))
        } else {
            Ok(new_token_owner_record(realm, governing_token_mint, governing_token_owner, amount))
        },
        Some(record) => if record.governing_token_deposit_amount + amount > u64::MAX {
            Err(ProgramError::Governance(GovernanceError::NumericalOverflow))
        } else {
            Ok(
                TokenOwnerRecord {
                    governing_token_deposit_amount: (record.governing_token_deposit_amount
                        + amount) as u64,
                    ..record
                },
            )
        },
    }
}

/// What a withdrawal makes of a record: nothing while votes are outstanding,
/// nothing beyond what was deposited.
pub open spec fn withdraw_result(record: TokenOwnerRecord, amount: u64) -> Result<
    TokenOwnerRecord,
    ProgramError,
> {
    if record.unrelinquished_votes_count > 0 {
        Err(
            ProgramError::Governance(
                GovernanceError::AllVotesMustBeRelinquishedToWithdrawGoverningTokens,
            ),
        )
    } else if amount > record.governing_token_deposit_amount {
        Err(ProgramError::Governance(GovernanceError::NumericalOverflow))
    } else {
        Ok(
            TokenOwnerRecord {
                governing_token_deposit_amount: (record.governing_token_deposit_amount
                    - amount) as u64,
                ..record
            },
        )
    }
}

/// The record of a first deposit of `amount`.
pub fn create_token_owner_record(
    realm: &Pubkey,
    governing_token_mint: &Pubkey,
    governing_token_owner: &Pubkey,
    amount: u64,
) -> (r: TokenOwnerRecord)
    ensures
        r == new_token_owner_record(*realm, *governing_token_mint, *governing_token_owner, amount),
{
    let reserved = [0u8; 7];
    let reserved_v2 = [0u8; 128];
    proof {
        let s7 = Seq::new(7, |i: int| 0u8);
        let s128 = Seq::new(128, |i: int| 0u8);
        assert(reserved@ =~= s7);
        assert(reserved_v2@ =~= s128);
        crate::wire::lemma_array_of::<7>(s7);
        crate::wire::lemma_array_of::<128>(s128);
    }
    TokenOwnerRecord {
        account_type: GovernanceAccountType::TokenOwnerRecord,
        realm: *realm,
        governing_token_mint: *governing_token_mint,
        governing_token_owner: *governing_token_owner,
        governing_token_deposit_amount: amount,
        unrelinquished_votes_count: 0,
        total_votes_count: 0,
        outstanding_proposal_count: 0,
        reserved,
        governance_delegate: None,
        reserved_v2,
    }
}

/// Books a deposit of `amount` governing tokens of `governing_token_owner`:
/// creates the owner's record if there is none yet, else adds to it.
pub fn deposit_governing_tokens(
    existing: Option<TokenOwnerRecord>,
    realm: &Pubkey,
    governing_token_mint: &Pubkey,
    governing_token_owner: &Pubkey,
    owner_is_signer: bool,
    amount: u64,
) -> (r: Result<TokenOwnerRecord, ProgramError>)
    ensures
        r == deposit_result(
            existing,
            *realm,
            *governing_token_mint,
            *governing_token_owner,
            owner_is_signer,
            amount,
        ),
{
    match existing {
        None => {
            if !owner_is_signer {
                return Err(ProgramError::Governance(GovernanceError::GoverningTokenOwnerMustSign));
            }
            Ok(
                create_token_owner_record(
                    realm,
                    governing_token_mint,
                    governing_token_owner,
                    amount,
                ),
            )
        },
        Some(record) => {
            match record.governing_token_deposit_amount.checked_add(amount) {
                Some(total) => {
                    let mut updated = record;
                    updated.governing_token_deposit_amount = total;
                    Ok(updated)
                },
                None => Err(ProgramError::Governance(GovernanceError::NumericalOverflow)),
            }
        },
    }
}

impl TokenOwnerRecord {
    pub fn is_initialized(&self) -> (r: bool)
        ensures
            r == (self.account_type == GovernanceAccountType::TokenOwnerRecord),
    {
        self.account_type == GovernanceAccountType::TokenOwnerRecord
    }

    /// The authority is the owner of the tokens or the delegate, and signed.
    pub open spec fn owner_or_delegate_signed(&self, authority: &AccountInfo) -> bool {
        authority.is_signer && (self.governing_token_owner == authority.key
            || self.governance_delegate == Some(authority.key))
    }

    /// Checks whether the provided Governance Authority signed transaction
    pub fn assert_token_owner_or_delegate_is_signer(&self, governance_authority_info: &AccountInfo) -> (r:
        Result<(), ProgramError>)
        ensures
            self.owner_or_delegate_signed(governance_authority_info) ==> r == Ok::<
                (),
                ProgramError,
            >(()),
            !self.owner_or_delegate_signed(governance_authority_info) ==> r == Err::<
                (),
                ProgramError,
            >(ProgramError::Governance(GovernanceError::GoverningTokenOwnerOrDelegateMustSign)),
    {
        if governance_authority_info.is_signer {
            if self.governing_token_owner == governance_authority_info.key {
                return Ok(());
            }
            match self.governance_delegate {
                Some(governance_delegate) => {
                    if governance_delegate == governance_authority_info.key {
                        return Ok(());
                    }
                },
                None => {},
            }
        }
        Err(ProgramError::Governance(GovernanceError::GoverningTokenOwnerOrDelegateMustSign))
    }

    /// Whether the weight of the record comes from an add-in of the realm.
    pub open spec fn uses_voter_weight_addin(&self, realm: RealmView) -> bool {
        realm.config.use_community_voter_weight_addin && realm.community_mint
            == self.governing_token_mint
    }

    /// The voter weight of the record: what the add-in grants where the
    /// realm takes the weight of the mint from one, else what was deposited.
    pub open spec fn voter_weight(&self, realm: RealmView, addin_voter_weight: Option<u64>) -> Result<
        u64,
        ProgramError,
    > {
        if self.uses_voter_weight_addin(realm) {
            match addin_voter_weight {
                Some(weight) => Ok(weight),
                None => Err(ProgramError::NotEnoughAccountKeys),
            }
        } else {
            Ok(self.governing_token_deposit_amount)
        }
    }

    /// Resolves voter's weight using either the amount deposited into the
    /// realm or the weight provided by voter weight addin (if configured).
    /// `addin_voter_weight` is the weight of the add-in's record for this
    /// owner, where such a record was handed over.
    pub fn resolve_voter_weight(&self, realm_data: &Realm, addin_voter_weight: Option<u64>) -> (r:
        Result<u64, ProgramError>)
        ensures
            r == self.voter_weight(realm_data@, addin_voter_weight),
    {
        if realm_data.config.use_community_voter_weight_addin && realm_data.community_mint
            == self.governing_token_mint {
            match addin_voter_weight {
                Some(weight) => Ok(weight),
                None => Err(ProgramError::NotEnoughAccountKeys),
            }
        } else {
            Ok(self.governing_token_deposit_amount)
        }
    }

    /// What the check that the owner may create a governance comes to: the
    /// record is of one of the realm's two mints, and the weight is at least
    /// the minimum that the realm asks for, whichever of the two it is.
    pub open spec fn create_governance_check(&self, realm: RealmView, voter_weight: u64) -> Result<
        (),
        ProgramError,
    > {
        if self.governing_token_mint != realm.community_mint && Some(self.governing_token_mint)
            != realm.config.council_mint {
            Err(ProgramError::Governance(GovernanceError::InvalidGoverningTokenMint))
        } else if voter_weight < realm.config.min_community_weight_to_create_governance {
            Err(ProgramError::Governance(GovernanceError::NotEnoughTokensToCreateGovernance))
        } else {
            Ok(())
        }
    }

    /// Asserts TokenOwner has enough tokens to be allowed to create governance
    pub fn assert_can_create_governance(&self, realm_data: &Realm, voter_weight: u64) -> (r: Result<
        (),
        ProgramError,
    >)
        ensures
            r == self.create_governance_check(realm_data@, voter_weight),
    {
        if self.governing_token_mint != realm_data.community_mint {
            match realm_data.config.council_mint {
                Some(council_mint) => {
                    if council_mint != self.governing_token_mint {
                        return Err(
                            ProgramError::Governance(GovernanceError::InvalidGoverningTokenMint),
                        );
                    }
                },
                None => {
                    return Err(
                        ProgramError::Governance(GovernanceError::InvalidGoverningTokenMint),
                    );
                },
            }
        }
        if voter_weight < realm_data.config.min_community_weight_to_create_governance {
            return Err(
                ProgramError::Governance(GovernanceError::NotEnoughTokensToCreateGovernance),
            );
        }
        Ok(())
    }

    /// Asserts TokenOwner can withdraw tokens from Realm
    pub fn assert_can_withdraw_governing_tokens(&self) -> (r: Result<(), ProgramError>)
        ensures
            self.unrelinquished_votes_count > 0 ==> r == Err::<(), ProgramError>(
                ProgramError::Governance(
                    GovernanceError::AllVotesMustBeRelinquishedToWithdrawGoverningTokens,
                ),
            ),
            self.unrelinquished_votes_count == 0 ==> r == Ok::<(), ProgramError>(()),
    {
        if self.unrelinquished_votes_count > 0 {
            return Err(
                ProgramError::Governance(
                    GovernanceError::AllVotesMustBeRelinquishedToWithdrawGoverningTokens,
                ),
            );
        }
        Ok(())
    }

    /// Takes `amount` off the deposit. The record is left as it was where the
    /// withdrawal is refused.
    pub fn withdraw_governing_tokens(&mut self, amount: u64) -> (r: Result<(), ProgramError>)
        ensures
            match withdraw_result(*old(self), amount) {
                Ok(record) => r == Ok::<(), ProgramError>(()) && *final(self) == record,
                Err(e) => r == Err::<(), ProgramError>(e) && *final(self) == *old(self),
            },
    {
        self.assert_can_withdraw_governing_tokens()?;
        match self.governing_token_deposit_amount.checked_sub(amount) {
            Some(left) => {
                self.governing_token_deposit_amount = left;
                Ok(())
            },
            None => Err(ProgramError::Governance(GovernanceError::NumericalOverflow)),
        }
    }

    /// Reads the record at the front of `data`; what follows it is ignored.
    pub fn deserialize(data: &[u8]) -> (r: Option<TokenOwnerRecord>)
        ensures
            r == match parse_token_owner_record(data@) {
                Some((t, _)) => Some(t),
                None => None,
            },
    {
        assert(data@.skip(0) =~= data@);
        let (account_type, pos) = read_account_type(data, 0)?;
        let (realm, pos) = read_pubkey(data, pos)?;
        let (governing_token_mint, pos) = read_pubkey(data, pos)?;
        let (governing_token_owner, pos) = read_pubkey(data, pos)?;
        let (governing_token_deposit_amount, pos) = read_u64(data, pos)?;
        let (unrelinquished_votes_count, pos) = read_u32(data, pos)?;
        let (total_votes_count, pos) = read_u32(data, pos)?;
        let (outstanding_proposal_count, pos) = read_u8(data, pos)?;
        let (reserved, pos) = read_array::<7>(data, pos)?;
        let (governance_delegate, pos) = read_option_pubkey(data, pos)?;
        let (reserved_v2, _) = read_array::<128>(data, pos)?;
        Some(
            TokenOwnerRecord {
                account_type,
                realm,
                governing_token_mint,
                governing_token_owner,
                governing_token_deposit_amount,
                unrelinquished_votes_count,
                total_votes_count,
                outstanding_proposal_count,
                reserved,
                governance_delegate,
                reserved_v2,
            },
        )
    }

    /// Serializes account into the target buffer
    pub fn serialize(self, writer: &mut Vec<u8>) -> (r: Result<(), ProgramError>)
        ensures
            r == Ok::<(), ProgramError>(()),
            final(writer)@ == old(writer)@ + wire_token_owner_record(self),
    {
        write_account_type(writer, &self.account_type);
        write_pubkey(writer, &self.realm);
        write_pubkey(writer, &self.governing_token_mint);
        write_pubkey(writer, &self.governing_token_owner);
        write_u64(writer, self.governing_token_deposit_amount);
        write_u32(writer, self.unrelinquished_votes_count);
        write_u32(writer, self.total_votes_count);
        write_u8(writer, self.outstanding_proposal_count);
        write_slice(writer, self.reserved.as_slice());
        write_option_pubkey(writer, &self.governance_delegate);
        write_slice(writer, self.reserved_v2.as_slice());
        assert(writer@ =~= old(writer)@ + wire_token_owner_record(self));
        Ok(())
    }
}

// ---------------------------------------------------------------------------
// Reading a record off an account
// ---------------------------------------------------------------------------

/// The record that the account holds for the program.
pub open spec fn token_owner_record_data(
    program_id: Pubkey,
    token_owner_record_info: &AccountInfo,
) -> Result<TokenOwnerRecord, ProgramError> {
    if account_check(program_id, token_owner_record_info) is Err {
        Err(account_check(program_id, token_owner_record_info)->Err_0)
    } else if parse_token_owner_record(token_owner_record_info.data@) is None {
        Err(ProgramError::BorshIoError)
    } else if value_of(parse_token_owner_record(token_owner_record_info.data@)).account_type
        != GovernanceAccountType::TokenOwnerRecord {
        Err(ProgramError::UninitializedAccount)
    } else {
        Ok(value_of(parse_token_owner_record(token_owner_record_info.data@)))
    }
}

/// Deserializes TokenOwnerRecord account and checks owner program
pub fn get_token_owner_record_data(
    program_id: &Pubkey,
    token_owner_record_info: &AccountInfo,
) -> (r: Result<TokenOwnerRecord, ProgramError>)
    ensures
        r == token_owner_record_data(*program_id, token_owner_record_info),
{
    assert_account_exists(program_id, token_owner_record_info)?;
    match TokenOwnerRecord::deserialize(token_owner_record_info.data.as_slice()) {
        Some(record) => {
            if !record.is_initialized() {
                Err(ProgramError::UninitializedAccount)
            } else {
                Ok(record)
            }
        },
        None => Err(ProgramError::BorshIoError),
    }
}

/// The record that the account holds, if it belongs to the realm.
pub open spec fn token_owner_record_data_for_realm(
    program_id: Pubkey,
    token_owner_record_info: &AccountInfo,
    realm: Pubkey,
) -> Result<TokenOwnerRecord, ProgramError> {
    match token_owner_record_data(program_id, token_owner_record_info) {
        Err(e) => Err(e),
        Ok(record) => if record.realm != realm {
            Err(ProgramError::Governance(GovernanceError::InvalidRealmForTokenOwnerRecord))
        } else {
            Ok(record)
        },
    }
}

/// Deserializes TokenOwnerRecord account and asserts it belongs to the given realm
pub fn get_token_owner_record_data_for_realm(
    program_id: &Pubkey,
    token_owner_record_info: &AccountInfo,
    realm: &Pubkey,
) -> (r: Result<TokenOwnerRecord, ProgramError>)
    ensures
        r == token_owner_record_data_for_realm(*program_id, token_owner_record_info, *realm),
{
    let token_owner_record_data = get_token_owner_record_data(program_id, token_owner_record_info)?;
    if token_owner_record_data.realm != *realm {
        return Err(ProgramError::Governance(GovernanceError::InvalidRealmForTokenOwnerRecord));
    }
    Ok(token_owner_record_data)
}

// ---------------------------------------------------------------------------
// What holds of the ledger
// ---------------------------------------------------------------------------

/// A first deposit creates the record with the amount deposited; a second
/// deposit by the same owner adds to that record, and the record stays the one
/// of the same realm, mint and owner, at the same address.
pub proof fn lemma_deposit_creates_once(
    program_id: Pubkey,
    realm: Pubkey,
    governing_token_mint: Pubkey,
    governing_token_owner: Pubkey,
    amount: u64,
    amount2: u64,
    second_signed: bool,
)
    requires
        amount + amount2 <= u64::MAX,
    ensures
        ({
            let first = deposit_result(
                None,
                realm,
                governing_token_mint,
                governing_token_owner,
                true,
                amount,
            );
            let second = deposit_result(
                Some(first->Ok_0),
                realm,
                governing_token_mint,
                governing_token_owner,
                second_signed,
                amount2,
            );
            &&& first is Ok
            &&& first->Ok_0.governing_token_deposit_amount == amount
            &&& second is Ok
            &&& second->Ok_0.governing_token_deposit_amount == amount + amount2
            &&& second->Ok_0.realm == realm
            &&& second->Ok_0.governing_token_mint == governing_token_mint
            &&& second->Ok_0.governing_token_owner == governing_token_owner
            &&& token_owner_record_address(
                program_id,
                second->Ok_0.realm,
                second->Ok_0.governing_token_mint,
                second->Ok_0.governing_token_owner,
            ) == token_owner_record_address(
                program_id,
                first->Ok_0.realm,
                first->Ok_0.governing_token_mint,
                first->Ok_0.governing_token_owner,
            )
        }),
{
}

/// A withdrawal fails whenever votes are outstanding, whatever their number
/// and whatever the amount.
pub proof fn lemma_withdraw_guard(record: TokenOwnerRecord, amount: u64)
    requires
        record.unrelinquished_votes_count > 0,
    ensures
        withdraw_result(record, amount) == Err::<TokenOwnerRecord, ProgramError>(
            ProgramError::Governance(
                GovernanceError::AllVotesMustBeRelinquishedToWithdrawGoverningTokens,
            ),
        ),
{
}

/// A record is read back from the bytes it is written as, whatever follows
/// them: what `serialize` writes, `deserialize` reads.
#[verifier::rlimit(50)]
pub proof fn lemma_token_owner_record_round_trip(t: TokenOwnerRecord, rest: Seq<u8>)
    ensures
        parse_token_owner_record(wire_token_owner_record(t) + rest) == Some((t, rest)),
{
    let t10 = t.reserved_v2@ + rest;
    let t9 = wire_option_pubkey(t.governance_delegate) + t10;
    let t8 = t.reserved@ + t9;
    let t7 = wire_u8(t.outstanding_proposal_count) + t8;
    let t6 = wire_u32(t.total_votes_count) + t7;
    let t5 = wire_u32(t.unrelinquished_votes_count) + t6;
    let t4 = wire_u64(t.governing_token_deposit_amount) + t5;
    let t3 = wire_pubkey(t.governing_token_owner) + t4;
    let t2 = wire_pubkey(t.governing_token_mint) + t3;
    let t1 = wire_pubkey(t.realm) + t2;
    crate::enums::lemma_account_type_round_trip(t.account_type, t1);
    crate::wire::lemma_pubkey_round_trip(t.realm, t2);
    crate::wire::lemma_pubkey_round_trip(t.governing_token_mint, t3);
    crate::wire::lemma_pubkey_round_trip(t.governing_token_owner, t4);
    crate::wire::lemma_u64_round_trip(t.governing_token_deposit_amount, t5);
    crate::wire::lemma_u32_round_trip(t.unrelinquished_votes_count, t6);
    crate::wire::lemma_u32_round_trip(t.total_votes_count, t7);
    crate::wire::lemma_u8_round_trip(t.outstanding_proposal_count, t8);
    crate::wire::lemma_array_round_trip::<7>(t.reserved, t9);
    crate::wire::lemma_option_pubkey_round_trip(t.governance_delegate, t10);
    crate::wire::lemma_array_round_trip::<128>(t.reserved_v2, rest);
    crate::wire::lemma_concat_assoc(wire_account_type(t.account_type), wire_pubkey(t.realm), t2);
    crate::wire::lemma_concat_assoc(wire_account_type(t.account_type) + wire_pubkey(t.realm), wire_pubkey(t.governing_token_mint), t3);
    crate::wire::lemma_concat_assoc(wire_account_type(t.account_type) + wire_pubkey(t.realm) + wire_pubkey(t.governing_token_mint), wire_pubkey(t.governing_token_owner), t4);
    crate::wire::lemma_concat_assoc(wire_account_type(t.account_type) + wire_pubkey(t.realm) + wire_pubkey(t.governing_token_mint) + wire_pubkey(t.governing_token_owner), wire_u64(t.governing_token_deposit_amount), t5);
    crate::wire::lemma_concat_assoc(wire_account_type(t.account_type) + wire_pubkey(t.realm) + wire_pubkey(t.governing_token_mint) + wire_pubkey(t.governing_token_owner) + wire_u64(t.governing_token_deposit_amount), wire_u32(t.unrelinquished_votes_count), t6);
    crate::wire::lemma_concat_assoc(wire_account_type(t.account_type) + wire_pubkey(t.realm) + wire_pubkey(t.governing_token_mint) + wire_pubkey(t.governing_token_owner) + wire_u64(t.governing_token_deposit_amount) + wire_u32(t.unrelinquished_votes_count), wire_u32(t.total_votes_count), t7);
    crate::wire::lemma_concat_assoc(wire_account_type(t.account_type) + wire_pubkey(t.realm) + wire_pubkey(t.governing_token_mint) + wire_pubkey(t.governing_token_owner) + wire_u64(t.governing_token_deposit_amount) + wire_u32(t.unrelinquished_votes_count) + wire_u32(t.total_votes_count), wire_u8(t.outstanding_proposal_count), t8);
    crate::wire::lemma_concat_assoc(wire_account_type(t.account_type) + wire_pubkey(t.realm) + wire_pubkey(t.governing_token_mint) + wire_pubkey(t.governing_token_owner) + wire_u64(t.governing_token_deposit_amount) + wire_u32(t.unrelinquished_votes_count) + wire_u32(t.total_votes_count) + wire_u8(t.outstanding_proposal_count), t.reserved@, t9);
    crate::wire::lemma_concat_assoc(wire_account_type(t.account_type) + wire_pubkey(t.realm) + wire_pubkey(t.governing_token_mint) + wire_pubkey(t.governing_token_owner) + wire_u64(t.governing_token_deposit_amount) + wire_u32(t.unrelinquished_votes_count) + wire_u32(t.total_votes_count) + wire_u8(t.outstanding_proposal_count) + t.reserved@, wire_option_pubkey(t.governance_delegate), t10);
    crate::wire::lemma_concat_assoc(wire_account_type(t.account_type) + wire_pubkey(t.realm) + wire_pubkey(t.governing_token_mint) + wire_pubkey(t.governing_token_owner) + wire_u64(t.governing_token_deposit_amount) + wire_u32(t.unrelinquished_votes_count) + wire_u32(t.total_votes_count) + wire_u8(t.outstanding_proposal_count) + t.reserved@ + wire_option_pubkey(t.governance_delegate), t.reserved_v2@, rest);
}

} // verus!
