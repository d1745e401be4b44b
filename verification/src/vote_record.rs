//! Proposal Vote Record Account: one vote of one token owner on one proposal.

use vstd::prelude::*;

use crate::account::{account_check, assert_account_exists, AccountInfo};
use crate::enums::{
    parse_account_type, read_account_type, wire_account_type, write_account_type,
    GovernanceAccountType,
};
use crate::error::{GovernanceError, ProgramError};
use crate::pubkey::{derive_address, seeds_of, Pubkey, PROGRAM_AUTHORITY_SEED};
use crate::token_owner_record::TokenOwnerRecord;
use crate::wire::{
    parse_array, parse_bool, parse_pubkey, parse_u32, parse_u64, parse_u8, read_array,
    read_bool, read_pubkey, read_u32, read_u64, read_u8, reads, rest_of, value_of, wire_bool,
    wire_pubkey, wire_u32, wire_u64, write_bool, write_pubkey, write_slice, write_u32, write_u64,
    Parsed,
};

verus! {

/// Voter choice for a proposal option
#[derive(Clone, Copy, Debug, PartialEq, Eq, Structural)]
pub struct VoteChoice {
    /// The rank given to the choice by voter. Not used in this version.
    pub rank: u8,
    /// The voter's weight percentage given by the voter to the choice
    pub weight_percentage: u8,
}

impl VoteChoice {
    /// The weight of a choice: all of the voter's weight or none of it. A
    /// share in between is not computed.
    pub open spec fn choice_weight(self, voter_weight: u64) -> Result<u64, ProgramError> {
        if self.weight_percentage == 100 {
            Ok(voter_weight)
        } else if self.weight_percentage == 0 {
            Ok(0)
        } else {
            Err(ProgramError::Governance(GovernanceError::InvalidVoteChoiceWeightPercentage))
        }
    }

    /// Returns the choice weight given the voter's weight
    pub fn get_choice_weight(&self, voter_weight: u64) -> (r: Result<u64, ProgramError>)
        ensures
            r == self.choice_weight(voter_weight),
    {
        Ok(
            match self.weight_percentage {
                100 => voter_weight,
                0 => 0,
                _ => {
                    return Err(
                        ProgramError::Governance(
                            GovernanceError::InvalidVoteChoiceWeightPercentage,
                        ),
                    );
                },
            },
        )
    }
}

/// User's vote
#[derive(Clone, Debug, PartialEq, Eq)]
pub enum Vote {
    /// Vote approving choices
    Approve(Vec<VoteChoice>),
    /// Vote rejecting proposal
    Deny,
    /// Declare indifference to proposal
    Abstain,
    /// Veto proposal
    Veto,
}

/// A vote as a value.
pub enum VoteView {
    Approve(Seq<VoteChoice>),
    Deny,
    Abstain,
    Veto,
}

impl View for Vote {
    type V = VoteView;

    open spec fn view(&self) -> VoteView {
        match self {
            Vote::Approve(choices) => VoteView::Approve(choices@),
            Vote::Deny => VoteView::Deny,
            Vote::Abstain => VoteView::Abstain,
            Vote::Veto => VoteView::Veto,
        }
    }
}

/// Proposal VoteRecord
#[derive(Clone, Debug, PartialEq, Eq)]
pub struct VoteRecord {
    /// Governance account type
    pub account_type: GovernanceAccountType,
    /// Proposal account
    pub proposal: Pubkey,
    /// The user who casted this vote: the Governing Token Owner who deposited
    /// governing tokens into the Realm
    pub governing_token_owner: Pubkey,
    /// Indicates whether the vote was relinquished by voter
    pub is_relinquished: bool,
    /// The weight of the user casting the vote
    pub voter_weight: u64,
    /// Voter's vote
    pub vote: Vote,
    /// Reserved space for later versions
    pub reserved_v2: [u8; 8],
}

/// A vote record as a value.
pub struct VoteRecordView {
    pub account_type: GovernanceAccountType,
    pub proposal: Pubkey,
    pub governing_token_owner: Pubkey,
    pub is_relinquished: bool,
    pub voter_weight: u64,
    pub vote: VoteView,
    pub reserved_v2: [u8; 8],
}

impl View for VoteRecord {
    type V = VoteRecordView;

    open spec fn view(&self) -> VoteRecordView {
        VoteRecordView {
            account_type: self.account_type,
            proposal: self.proposal,
            governing_token_owner: self.governing_token_owner,
            is_relinquished: self.is_relinquished,
            voter_weight: self.voter_weight,
            vote: self.vote@,
            reserved_v2: self.reserved_v2,
        }
    }
}

// ---------------------------------------------------------------------------
// Persisted layout
// ---------------------------------------------------------------------------

/// The choices one after the other, two bytes each.
pub open spec fn wire_choices(choices: Seq<VoteChoice>) -> Seq<u8> {
    Seq::new(
        2 * choices.len(),
        |i: int|
            if i % 2 == 0 {
                choices[i / 2].rank
            } else {
                choices[i / 2].weight_percentage
            },
    )
}

/// The choices that `n` pairs of bytes stand for.
pub open spec fn choices_of(s: Seq<u8>, n: nat) -> Seq<VoteChoice> {
    Seq::new(n, |i: int| VoteChoice { rank: s[2 * i], weight_percentage: s[2 * i + 1] })
}

pub open spec fn wire_vote(v: VoteView) -> Seq<u8> {
    match v {
        VoteView::Approve(choices) => seq![0u8] + wire_u32(choices.len() as u32) + wire_choices(
            choices,
        ),
        VoteView::Deny => seq![1u8],
        VoteView::Abstain => seq![2u8],
        VoteView::Veto => seq![3u8],
    }
}

pub open spec fn parse_vote(s: Seq<u8>) -> Parsed<VoteView> {
    let tag = parse_u8(s);
    let len = parse_u32(rest_of(tag));
    if tag is None {
        None
    } else if value_of(tag) == 0 {
        if len is Some && rest_of(len).len() >= 2 * value_of(len) {
            Some(
                (
                    VoteView::Approve(choices_of(rest_of(len), value_of(len) as nat)),
                    rest_of(len).skip(2 * value_of(len)),
                ),
            )
        } else {
            None
        }
    } else if value_of(tag) == 1 {
        Some((VoteView::Deny, rest_of(tag)))
    } else if value_of(tag) == 2 {
        Some((VoteView::Abstain, rest_of(tag)))
    } else if value_of(tag) == 3 {
        Some((VoteView::Veto, rest_of(tag)))
    } else {
        None
    }
}

pub open spec fn wire_vote_record(v: VoteRecordView) -> Seq<u8> {
    wire_account_type(v.account_type) + wire_pubkey(v.proposal) + wire_pubkey(
        v.governing_token_owner,
    ) + wire_bool(v.is_relinquished) + wire_u64(v.voter_weight) + wire_vote(v.vote)
        + v.reserved_v2@
}

pub open spec fn parse_vote_record(s: Seq<u8>) -> Parsed<VoteRecordView> {
    let a = parse_account_type(s);
    let b = parse_pubkey(rest_of(a));
    let c = parse_pubkey(rest_of(b));
    let d = parse_bool(rest_of(c));
    let e = parse_u64(rest_of(d));
    let f = parse_vote(rest_of(e));
    let g = parse_array::<8>(rest_of(f));
    if a is Some && b is Some && c is Some && d is Some && e is Some && f is Some && g is Some {
        Some(
            (
                VoteRecordView {
                    account_type: value_of(a),
                    proposal: value_of(b),
                    governing_token_owner: value_of(c),
                    is_relinquished: value_of(d),
                    voter_weight: value_of(e),
                    vote: value_of(f),
                    reserved_v2: value_of(g),
                },
                rest_of(g),
            ),
        )
    } else {
        None
    }
}

fn read_choices(data: &[u8], pos: usize, n: usize) -> (r: Option<(Vec<VoteChoice>, usize)>)
    requires
        pos <= data@.len(),
    ensures
        match r {
            Some((v, next)) => data@.len() - pos >= 2 * n && next == pos + 2 * n && v@
                == choices_of(data@.skip(pos as int), n as nat),
            None => data@.len() - pos < 2 * n,
        },
{
    let available = data.len() - pos;
    if available / 2 < n {
        return None;
    }
    let mut out: Vec<VoteChoice> = Vec::new();
    let mut i: usize = 0;
    while i < n
        invariant
            i <= n,
            pos + 2 * n <= data@.len(),
            data@.len() <= usize::MAX,
            out@ == choices_of(data@.skip(pos as int), i as nat),
        decreases n - i,
    {
        let rank = data[pos + 2 * i];
        let weight_percentage = data[pos + 2 * i + 1];
        out.push(VoteChoice { rank, weight_percentage });
        assert(out@ =~= choices_of(data@.skip(pos as int), (i + 1) as nat));
        i += 1;
    }
    Some((out, pos + 2 * n))
}

fn read_vote(data: &[u8], pos: usize) -> (r: Option<(Vote, usize)>)
    requires
        pos <= data@.len(),
    ensures
        match r {
            Some((v, next)) => reads(
                Some((v@, next)),
                data@,
                pos,
                parse_vote(data@.skip(pos as int)),
            ),
            None => parse_vote(data@.skip(pos as int)) is None,
        },
{
    let (tag, next) = read_u8(data, pos)?;
    match tag {
        0 => {
            let (len, start) = read_u32(data, next)?;
            let (choices, end) = read_choices(data, start, len as usize)?;
            assert(data@.skip(start as int).skip(2 * len) =~= data@.skip(end as int));
            Some((Vote::Approve(choices), end))
        },
        1 => Some((Vote::Deny, next)),
        2 => Some((Vote::Abstain, next)),
        3 => Some((Vote::Veto, next)),
        _ => None,
    }
}

fn write_choices(buf: &mut Vec<u8>, choices: &Vec<VoteChoice>)
    ensures
        final(buf)@ == old(buf)@ + wire_choices(choices@),
{
    let mut i: usize = 0;
    assert(buf@ =~= old(buf)@ + wire_choices(choices@.take(0)));
    while i < choices.len()
        invariant
            i <= choices@.len(),
            buf@ == old(buf)@ + wire_choices(choices@.take(i as int)),
        decreases choices@.len() - i,
    {
        let choice = choices[i];
        buf.push(choice.rank);
        buf.push(choice.weight_percentage);
        assert(buf@ =~= old(buf)@ + wire_choices(choices@.take(i + 1)));
        i += 1;
    }
    assert(choices@.take(i as int) =~= choices@);
}

/// Writes the vote, or nothing where it has more choices than a length field
/// counts.
fn write_vote(buf: &mut Vec<u8>, vote: &Vote) -> (ok: bool)
    ensures
        ok == vote_fits(vote@),
        ok ==> final(buf)@ == old(buf)@ + wire_vote(vote@),
        !ok ==> final(buf)@ == old(buf)@,
{
    match vote {
        Vote::Approve(choices) => {
            if choices.len() > u32::MAX as usize {
                return false;
            }
            buf.push(0);
            write_u32(buf, choices.len() as u32);
            write_choices(buf, choices);
            assert(buf@ =~= old(buf)@ + wire_vote(vote@));
        },
        Vote::Deny => {
            buf.push(1);
            assert(buf@ =~= old(buf)@ + wire_vote(vote@));
        },
        Vote::Abstain => {
            buf.push(2);
            assert(buf@ =~= old(buf)@ + wire_vote(vote@));
        },
        Vote::Veto => {
            buf.push(3);
            assert(buf@ =~= old(buf)@ + wire_vote(vote@));
        },
    }
    true
}

/// The vote has no more choices than a length field counts.
pub open spec fn vote_fits(vote: VoteView) -> bool {
    match vote {
        VoteView::Approve(choices) => choices.len() <= u32::MAX,
        _ => true,
    }
}

// ---------------------------------------------------------------------------
// Addresses
// ---------------------------------------------------------------------------

/// The seeds of a vote record: `governance`, the proposal, the voter's token
/// owner record.
pub open spec fn vote_record_address_seeds(proposal: Pubkey, token_owner_record: Pubkey) -> Seq<
    Seq<u8>,
> {
    seq![PROGRAM_AUTHORITY_SEED@, proposal@, token_owner_record@]
}

/// The address of the vote of a token owner record on a proposal.
pub open spec fn vote_record_address(
    program_id: Pubkey,
    proposal: Pubkey,
    token_owner_record: Pubkey,
) -> Option<Pubkey> {
    match derive_address(vote_record_address_seeds(proposal, token_owner_record), program_id) {
        Some((address, _)) => Some(address),
        None => None,
    }
}

/// Returns VoteRecord PDA seeds
pub fn get_vote_record_address_seeds<'a>(
    proposal: &'a Pubkey,
    token_owner_record: &'a Pubkey,
) -> (r: [&'a [u8]; 3])
    ensures
        seeds_of(r) == vote_record_address_seeds(*proposal, *token_owner_record),
{
    let tag: &'static [u8; 10] = &PROGRAM_AUTHORITY_SEED;
    let r = [tag.as_slice(), proposal.as_ref(), token_owner_record.as_ref()];
    assert(seeds_of(r) =~= vote_record_address_seeds(*proposal, *token_owner_record));
    r
}

/// Derives the address once, where there is one.
pub(crate) fn derive_vote_record_address(
    program_id: &Pubkey,
    proposal: &Pubkey,
    token_owner_record: &Pubkey,
) -> (r: Option<Pubkey>)
    ensures
        r == vote_record_address(*program_id, *proposal, *token_owner_record),
{
    let seeds = get_vote_record_address_seeds(proposal, token_owner_record);
    match Pubkey::try_find_address(&seeds, program_id) {
        Some((address, _)) => Some(address),
        None => None,
    }
}

/// Returns VoteRecord PDA address
pub fn get_vote_record_address(
    program_id: &Pubkey,
    proposal: &Pubkey,
    token_owner_record: &Pubkey,
) -> (r: Pubkey)
    requires
        vote_record_address(*program_id, *proposal, *token_owner_record) is Some,
    ensures
        Some(r) == vote_record_address(*program_id, *proposal, *token_owner_record),
{
    let seeds = get_vote_record_address_seeds(proposal, token_owner_record);
    Pubkey::find_address(&seeds, program_id).0
}

/// Returns VoteRecord PDA address, where there is one.
pub fn try_get_vote_record_address(
    program_id: &Pubkey,
    proposal: &Pubkey,
    token_owner_record: &Pubkey,
) -> (r: Option<Pubkey>)
    ensures
        r == vote_record_address(*program_id, *proposal, *token_owner_record),
{
    match derive_vote_record_address(program_id, proposal, token_owner_record) {
        Some(_) => Some(get_vote_record_address(program_id, proposal, token_owner_record)),
        None => None,
    }
}

// ---------------------------------------------------------------------------
// Casting and relinquishing
// ---------------------------------------------------------------------------

/// The choice weighs all or nothing.
pub open spec fn choice_is_supported(choice: VoteChoice) -> bool {
    choice.weight_percentage == 100 || choice.weight_percentage == 0
}

/// Every choice of the vote weighs all or nothing.
pub open spec fn choices_are_supported(choices: Seq<VoteChoice>) -> bool {
    forall|i: int| 0 <= i < choices.len() ==> choice_is_supported(#[trigger] choices[i])
}

/// Every choice of the vote weighs all or nothing.
pub open spec fn vote_is_supported(vote: VoteView) -> bool {
    match vote {
        VoteView::Approve(choices) => choices_are_supported(choices),
        _ => true,
    }
}

/// What relinquishing makes of a vote and of the voter's record: the vote is
/// marked, once, and the voter has one outstanding vote fewer.
pub open spec fn relinquish_result(vote_record: VoteRecordView, owner: TokenOwnerRecord) -> Result<
    (VoteRecordView, TokenOwnerRecord),
    ProgramError,
> {
    if vote_record.is_relinquished {
        Err(ProgramError::Governance(GovernanceError::VoteAlreadyRelinquished))
    } else if owner.unrelinquished_votes_count == 0 {
        Err(ProgramError::Governance(GovernanceError::NumericalOverflow))
    } else {
        Ok(
            (
                VoteRecordView { is_relinquished: true, ..vote_record },
                TokenOwnerRecord {
                    unrelinquished_votes_count: (owner.unrelinquished_votes_count - 1) as u32,
                    ..owner
                },
            ),
        )
    }
}

/// What casting a vote comes to: the record of the vote with the voter's
/// weight as it is now, and the voter's record with one more vote counted.
/// The account that is to hold the vote must be the one derived for the
/// proposal and the voter's record, and must hold nothing yet: there is one
/// vote per proposal and owner.
pub open spec fn cast_vote_result(
    program_id: Pubkey,
    vote_record_info: &AccountInfo,
    proposal: Pubkey,
    token_owner_record_key: Pubkey,
    owner: TokenOwnerRecord,
    vote: VoteView,
    voter_weight: u64,
) -> Result<(VoteRecordView, TokenOwnerRecord), ProgramError> {
    if vote_record_address(program_id, proposal, token_owner_record_key) != Some(
        vote_record_info.key,
    ) {
        Err(ProgramError::Governance(GovernanceError::InvalidVoteRecordAccountAddress))
    } else if vote_record_info.data@.len() != 0 {
        Err(ProgramError::Governance(GovernanceError::VoteAlreadyExists))
    } else if !vote_is_supported(vote) {
        Err(ProgramError::Governance(GovernanceError::InvalidVoteChoiceWeightPercentage))
    } else if owner.unrelinquished_votes_count == u32::MAX || owner.total_votes_count == u32::MAX {
        Err(ProgramError::Governance(GovernanceError::NumericalOverflow))
    } else {
        Ok(
            (
                VoteRecordView {
                    account_type: GovernanceAccountType::VoteRecord,
                    proposal,
                    governing_token_owner: owner.governing_token_owner,
                    is_relinquished: false,
                    voter_weight,
                    vote,
                    reserved_v2: crate::wire::array_of::<8>(Seq::new(8, |i: int| 0u8)),
                },
                TokenOwnerRecord {
                    unrelinquished_votes_count: (owner.unrelinquished_votes_count + 1) as u32,
                    total_votes_count: (owner.total_votes_count + 1) as u32,
                    ..owner
                },
            ),
        )
    }
}

proof fn lemma_unsupported_choice(choices: Seq<VoteChoice>, i: int)
    requires
        0 <= i < choices.len(),
        !choice_is_supported(choices[i]),
    ensures
        !vote_is_supported(VoteView::Approve(choices)),
{
}

/// Whether every choice of the vote weighs all or nothing.
pub fn is_supported_vote(vote: &Vote) -> (r: bool)
    ensures
        r == vote_is_supported(vote@),
{
    match vote {
        Vote::Approve(choices) => {
            let mut i: usize = 0;
            while i < choices.len()
                invariant
                    i <= choices@.len(),
                    vote@ == VoteView::Approve(choices@),
                    forall|j: int| 0 <= j < i ==> choice_is_supported(#[trigger] choices@[j]),
                decreases choices@.len() - i,
            {
                if choices[i].get_choice_weight(0).is_err() {
                    proof {
                        lemma_unsupported_choice(choices@, i as int);
                    }
                    return false;
                }
                i += 1;
            }
            true
        },
        _ => true,
    }
}

/// Casts a vote on `proposal` for the owner of `token_owner_record`, whose
/// record lives at `token_owner_record_key`. The voter's record is left as it
/// was where the vote is refused.
pub fn cast_vote(
    program_id: &Pubkey,
    vote_record_info: &AccountInfo,
    proposal: &Pubkey,
    token_owner_record_key: &Pubkey,
    token_owner_record: &mut TokenOwnerRecord,
    vote: Vote,
    voter_weight: u64,
) -> (r: Result<VoteRecord, ProgramError>)
    ensures
        match cast_vote_result(
            *program_id,
            vote_record_info,
            *proposal,
            *token_owner_record_key,
            *old(token_owner_record),
            vote@,
            voter_weight,
        ) {
            Ok((record, owner)) => r is Ok && r->Ok_0@ == record && *final(token_owner_record)
                == owner,
            Err(e) => r is Err && r->Err_0 == e && *final(token_owner_record) == *old(
                token_owner_record,
            ),
        },
{
    match derive_vote_record_address(program_id, proposal, token_owner_record_key) {
        Some(address) => {
            if address != vote_record_info.key {
                return Err(
                    ProgramError::Governance(GovernanceError::InvalidVoteRecordAccountAddress),
                );
            }
        },
        None => {
            return Err(ProgramError::Governance(GovernanceError::InvalidVoteRecordAccountAddress));
        },
    }
    if !vote_record_info.data_is_empty() {
        return Err(ProgramError::Governance(GovernanceError::VoteAlreadyExists));
    }
    if !is_supported_vote(&vote) {
        return Err(ProgramError::Governance(GovernanceError::InvalidVoteChoiceWeightPercentage));
    }
    if token_owner_record.unrelinquished_votes_count == u32::MAX
        || token_owner_record.total_votes_count == u32::MAX {
        return Err(ProgramError::Governance(GovernanceError::NumericalOverflow));
    }
    token_owner_record.unrelinquished_votes_count = token_owner_record.unrelinquished_votes_count
        + 1;
    token_owner_record.total_votes_count = token_owner_record.total_votes_count + 1;
    let reserved_v2 = [0u8; 8];
    proof {
        let zeros = Seq::new(8, |i: int| 0u8);
        assert(reserved_v2@ =~= zeros);
        crate::wire::lemma_array_of::<8>(zeros);
    }
    Ok(
        VoteRecord {
            account_type: GovernanceAccountType::VoteRecord,
            proposal: *proposal,
            governing_token_owner: token_owner_record.governing_token_owner,
            is_relinquished: false,
            voter_weight,
            vote,
            reserved_v2,
        },
    )
}

/// Relinquishes a vote: marks it and takes it off the voter's outstanding
/// votes. Both records are left as they were where this is refused.
pub fn relinquish_vote(vote_record: &mut VoteRecord, token_owner_record: &mut TokenOwnerRecord) -> (r:
    Result<(), ProgramError>)
    ensures
        match relinquish_result(old(vote_record)@, *old(token_owner_record)) {
            Ok((record, owner)) => r == Ok::<(), ProgramError>(()) && final(vote_record)@
                == record && *final(token_owner_record) == owner,
            Err(e) => r == Err::<(), ProgramError>(e) && *final(vote_record) == *old(vote_record)
                && *final(token_owner_record) == *old(token_owner_record),
        },
{
    vote_record.assert_can_relinquish_vote()?;
    if token_owner_record.unrelinquished_votes_count == 0 {
        return Err(ProgramError::Governance(GovernanceError::NumericalOverflow));
    }
    token_owner_record.unrelinquished_votes_count = token_owner_record.unrelinquished_votes_count
        - 1;
    vote_record.is_relinquished = true;
    Ok(())
}

/// Relinquishing is one-shot: once a vote was relinquished, relinquishing it
/// again fails with `VoteAlreadyRelinquished`, whatever the voter's record
/// holds by then, and so changes nothing.
pub proof fn lemma_relinquish_is_one_shot(
    vote_record: VoteRecordView,
    owner: TokenOwnerRecord,
    later_owner: TokenOwnerRecord,
)
    requires
        relinquish_result(vote_record, owner) is Ok,
    ensures
        relinquish_result(relinquish_result(vote_record, owner)->Ok_0.0, later_owner) == Err::<
            (VoteRecordView, TokenOwnerRecord),
            ProgramError,
        >(ProgramError::Governance(GovernanceError::VoteAlreadyRelinquished)),
{
}

impl VoteRecord {
    pub fn is_initialized(&self) -> (r: bool)
        ensures
            r == (self.account_type == GovernanceAccountType::VoteRecord),
    {
        self.account_type == GovernanceAccountType::VoteRecord
    }

    /// Checks the vote can be relinquished
    pub fn assert_can_relinquish_vote(&self) -> (r: Result<(), ProgramError>)
        ensures
            self.is_relinquished ==> r == Err::<(), ProgramError>(
                ProgramError::Governance(GovernanceError::VoteAlreadyRelinquished),
            ),
            !self.is_relinquished ==> r == Ok::<(), ProgramError>(()),
    {
        if self.is_relinquished {
            return Err(ProgramError::Governance(GovernanceError::VoteAlreadyRelinquished));
        }
        Ok(())
    }

    /// Reads the record at the front of `data`; what follows it is ignored.
    pub fn deserialize(data: &[u8]) -> (r: Option<VoteRecord>)
        ensures
            match r {
                Some(record) => parse_vote_record(data@) is Some && value_of(
                    parse_vote_record(data@),
                ) == record@,
                None => parse_vote_record(data@) is None,
            },
    {
        assert(data@.skip(0) =~= data@);
        let (account_type, pos) = read_account_type(data, 0)?;
        let (proposal, pos) = read_pubkey(data, pos)?;
        let (governing_token_owner, pos) = read_pubkey(data, pos)?;
        let (is_relinquished, pos) = read_bool(data, pos)?;
        let (voter_weight, pos) = read_u64(data, pos)?;
        let (vote, pos) = read_vote(data, pos)?;
        let (reserved_v2, _) = read_array::<8>(data, pos)?;
        Some(
            VoteRecord {
                account_type,
                proposal,
                governing_token_owner,
                is_relinquished,
                voter_weight,
                vote,
                reserved_v2,
            },
        )
    }

    /// Serializes account into the target buffer. A vote of more choices
    /// than a length field counts cannot be written.
    pub fn serialize(self, writer: &mut Vec<u8>) -> (r: Result<(), ProgramError>)
        ensures
            vote_fits(self.vote@) ==> r == Ok::<(), ProgramError>(()) && final(writer)@ == old(
                writer,
            )@ + wire_vote_record(self@),
            !vote_fits(self.vote@) ==> r == Err::<(), ProgramError>(ProgramError::BorshIoError)
                && final(writer)@ == old(writer)@,
    {
        let mut buf: Vec<u8> = Vec::new();
        write_account_type(&mut buf, &self.account_type);
        write_pubkey(&mut buf, &self.proposal);
        write_pubkey(&mut buf, &self.governing_token_owner);
        write_bool(&mut buf, self.is_relinquished);
        write_u64(&mut buf, self.voter_weight);
        if !write_vote(&mut buf, &self.vote) {
            return Err(ProgramError::BorshIoError);
        }
        write_slice(&mut buf, self.reserved_v2.as_slice());
        assert(buf@ =~= wire_vote_record(self@));
        write_slice(writer, buf.as_slice());
        Ok(())
    }
}

// ---------------------------------------------------------------------------
// Reading a vote off an account
// ---------------------------------------------------------------------------

/// The vote record that the account holds for the program.
pub open spec fn vote_record_data(program_id: Pubkey, vote_record_info: &AccountInfo) -> Result<
    VoteRecordView,
    ProgramError,
> {
    if account_check(program_id, vote_record_info) is Err {
        Err(account_check(program_id, vote_record_info)->Err_0)
    } else if parse_vote_record(vote_record_info.data@) is None {
        Err(ProgramError::BorshIoError)
    } else if value_of(parse_vote_record(vote_record_info.data@)).account_type
        != GovernanceAccountType::VoteRecord {
        Err(ProgramError::UninitializedAccount)
    } else {
        Ok(value_of(parse_vote_record(vote_record_info.data@)))
    }
}

/// An executable result agrees with a specified one.
pub open spec fn vote_record_result(r: Result<VoteRecord, ProgramError>, expected: Result<
    VoteRecordView,
    ProgramError,
>) -> bool {
    match r {
        Ok(record) => expected == Ok::<VoteRecordView, ProgramError>(record@),
        Err(e) => expected == Err::<VoteRecordView, ProgramError>(e),
    }
}

/// Deserializes VoteRecord account and checks owner program
pub fn get_vote_record_data(program_id: &Pubkey, vote_record_info: &AccountInfo) -> (r: Result<
    VoteRecord,
    ProgramError,
>)
    ensures
        vote_record_result(r, vote_record_data(*program_id, vote_record_info)),
{
    assert_account_exists(program_id, vote_record_info)?;
    match VoteRecord::deserialize(vote_record_info.data.as_slice()) {
        Some(record) => {
            if !record.is_initialized() {
                Err(ProgramError::UninitializedAccount)
            } else {
                Ok(record)
            }
        },
        None => Err(ProgramError::BorshIoError),
    }
}

/// The vote record that the account holds, if it is the one of the proposal
/// and the owner.
pub open spec fn vote_record_data_for_proposal_and_token_owner(
    program_id: Pubkey,
    vote_record_info: &AccountInfo,
    proposal: Pubkey,
    governing_token_owner: Pubkey,
) -> Result<VoteRecordView, ProgramError> {
    match vote_record_data(program_id, vote_record_info) {
        Err(e) => Err(e),
        Ok(record) => if record.proposal != proposal {
            Err(ProgramError::Governance(GovernanceError::InvalidProposalForVoterRecord))
        } else if record.governing_token_owner != governing_token_owner {
            Err(ProgramError::Governance(GovernanceError::InvalidGoverningTokenOwnerForVoteRecord))
        } else {
            Ok(record)
        },
    }
}

/// Deserializes VoteRecord and checks it belongs to the provided Proposal and Governing Token Owner
pub fn get_vote_record_data_for_proposal_and_token_owner(
    program_id: &Pubkey,
    vote_record_info: &AccountInfo,
    proposal: &Pubkey,
    governing_token_owner: &Pubkey,
) -> (r: Result<VoteRecord, ProgramError>)
    ensures
        vote_record_result(
            r,
            vote_record_data_for_proposal_and_token_owner(
                *program_id,
                vote_record_info,
                *proposal,
                *governing_token_owner,
            ),
        ),
{
    let vote_record_data = get_vote_record_data(program_id, vote_record_info)?;
    if vote_record_data.proposal != *proposal {
        return Err(ProgramError::Governance(GovernanceError::InvalidProposalForVoterRecord));
    }
    if vote_record_data.governing_token_owner != *governing_token_owner {
        return Err(
            ProgramError::Governance(GovernanceError::InvalidGoverningTokenOwnerForVoteRecord),
        );
    }
    Ok(vote_record_data)
}

// ---------------------------------------------------------------------------
// Reading undoes writing
// ---------------------------------------------------------------------------

#[verifier::rlimit(50)]
proof fn lemma_choices_round_trip(choices: Seq<VoteChoice>, rest: Seq<u8>)
    ensures
        wire_choices(choices).len() == 2 * choices.len(),
        choices_of(wire_choices(choices) + rest, choices.len()) == choices,
        (wire_choices(choices) + rest).skip(2 * choices.len() as int) == rest,
{
    let s = wire_choices(choices) + rest;
    assert forall|i: int| 0 <= i < choices.len() implies choices_of(s, choices.len())[i]
        == choices[i] by {
        assert((2 * i) % 2 == 0);
        assert((2 * i) / 2 == i);
        assert((2 * i + 1) % 2 == 1);
        assert((2 * i + 1) / 2 == i);
        assert(s[2 * i] == wire_choices(choices)[2 * i]);
        assert(s[2 * i + 1] == wire_choices(choices)[2 * i + 1]);
    }
    assert(choices_of(s, choices.len()) =~= choices);
    assert(s.skip(2 * choices.len() as int) =~= rest);
}

/// A vote that fits is read back from the bytes it is written as.
#[verifier::rlimit(50)]
pub proof fn lemma_vote_round_trip(v: VoteView, rest: Seq<u8>)
    requires
        vote_fits(v),
    ensures
        parse_vote(wire_vote(v) + rest) == Some((v, rest)),
{
    let s = wire_vote(v) + rest;
    match v {
        VoteView::Approve(choices) => {
            let after_len = wire_choices(choices) + rest;
            let after_tag = wire_u32(choices.len() as u32) + after_len;
            crate::wire::lemma_u8_round_trip(0, after_tag);
            crate::wire::lemma_u32_round_trip(choices.len() as u32, after_len);
            lemma_choices_round_trip(choices, rest);
            crate::wire::lemma_concat_assoc(
                seq![0u8],
                wire_u32(choices.len() as u32),
                after_len,
            );
            crate::wire::lemma_concat_assoc(
                seq![0u8] + wire_u32(choices.len() as u32),
                wire_choices(choices),
                rest,
            );
        },
        VoteView::Deny => {
            crate::wire::lemma_u8_round_trip(1, rest);
        },
        VoteView::Abstain => {
            crate::wire::lemma_u8_round_trip(2, rest);
        },
        VoteView::Veto => {
            crate::wire::lemma_u8_round_trip(3, rest);
        },
    }
}

/// A vote record whose vote fits is read back from the bytes it is written
/// as, whatever follows them: what `serialize` writes, `deserialize` reads.
#[verifier::rlimit(50)]
pub proof fn lemma_vote_record_round_trip(v: VoteRecordView, rest: Seq<u8>)
    requires
        vote_fits(v.vote),
    ensures
        parse_vote_record(wire_vote_record(v) + rest) == Some((v, rest)),
{
    let t6 = v.reserved_v2@ + rest;
    let t5 = wire_vote(v.vote) + t6;
    let t4 = wire_u64(v.voter_weight) + t5;
    let t3 = wire_bool(v.is_relinquished) + t4;
    let t2 = wire_pubkey(v.governing_token_owner) + t3;
    let t1 = wire_pubkey(v.proposal) + t2;
    crate::enums::lemma_account_type_round_trip(v.account_type, t1);
    crate::wire::lemma_pubkey_round_trip(v.proposal, t2);
    crate::wire::lemma_pubkey_round_trip(v.governing_token_owner, t3);
    crate::wire::lemma_bool_round_trip(v.is_relinquished, t4);
    crate::wire::lemma_u64_round_trip(v.voter_weight, t5);
    lemma_vote_round_trip(v.vote, t6);
    crate::wire::lemma_array_round_trip::<8>(v.reserved_v2, rest);
    crate::wire::lemma_concat_assoc(wire_account_type(v.account_type), wire_pubkey(v.proposal), t2);
    crate::wire::lemma_concat_assoc(
        wire_account_type(v.account_type) + wire_pubkey(v.proposal),
        wire_pubkey(v.governing_token_owner),
        t3,
    );
    crate::wire::lemma_concat_assoc(
        wire_account_type(v.account_type) + wire_pubkey(v.proposal) + wire_pubkey(
            v.governing_token_owner,
        ),
        wire_bool(v.is_relinquished),
        t4,
    );
    crate::wire::lemma_concat_assoc(
        wire_account_type(v.account_type) + wire_pubkey(v.proposal) + wire_pubkey(
            v.governing_token_owner,
        ) + wire_bool(v.is_relinquished),
        wire_u64(v.voter_weight),
        t5,
    );
    crate::wire::lemma_concat_assoc(
        wire_account_type(v.account_type) + wire_pubkey(v.proposal) + wire_pubkey(
            v.governing_token_owner,
        ) + wire_bool(v.is_relinquished) + wire_u64(v.voter_weight),
        wire_vote(v.vote),
        t6,
    );
    crate::wire::lemma_concat_assoc(
        wire_account_type(v.account_type) + wire_pubkey(v.proposal) + wire_pubkey(
            v.governing_token_owner,
        ) + wire_bool(v.is_relinquished) + wire_u64(v.voter_weight) + wire_vote(v.vote),
        v.reserved_v2@,
        rest,
    );
}

} // verus!
