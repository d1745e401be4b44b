//! The small enumerations that the records hold.

use vstd::prelude::*;

use crate::wire::{
    parse_u64, read_u64, read_u8, reads, rest_of, value_of, wire_u64, write_u64, write_u8, Parsed,
};

verus! {

/// What a record of the governance program is, as its first byte says.
#[derive(Clone, Copy, Debug, PartialEq, Eq, Structural, Hash)]
pub enum GovernanceAccountType {
    /// Nothing was written yet.
    Uninitialized,
    /// A realm.
    Realm,
    /// The deposit of one owner in one realm for one mint.
    TokenOwnerRecord,
    /// Governance over any account.
    Governance,
    /// Governance over an upgradable program.
    ProgramGovernance,
    /// A proposal.
    Proposal,
    /// A signatory of a proposal.
    SignatoryRecord,
    /// A vote on a proposal.
    VoteRecord,
    /// A transaction queued for a proposal.
    ProposalTransaction,
    /// Governance over a mint.
    MintGovernance,
    /// Governance over a token account.
    TokenGovernance,
    /// The add-ins of a realm.
    RealmConfig,
    /// Version and metadata of the program.
    ProgramMetadata,
}

/// When the votes cast decide a proposal.
#[derive(Clone, Copy, Debug, PartialEq, Eq, Structural, Hash)]
pub enum VoteThresholdPercentage {
    /// Share of the maximum vote weight that must say yes, in percent.
    YesVote(u8),
    /// Share of the maximum vote weight that must take part, in percent.
    Quorum(u8),
}

/// When a vote ends before its time is up.
#[derive(Clone, Copy, Debug, PartialEq, Eq, Structural, Hash)]
pub enum VoteTipping {
    /// As soon as the threshold is passed and the rest cannot change it.
    Strict,
    /// As soon as the threshold is passed.
    Early,
    /// Never.
    Disabled,
}

/// How a queued transaction ended.
#[derive(Clone, Copy, Debug, PartialEq, Eq, Structural, Hash)]
pub enum TransactionExecutionStatus {
    /// It did not run yet.
    Unexecuted,
    /// Every instruction ran.
    Success,
    /// An instruction failed.
    Error,
}

/// What the largest possible vote weight of a mint is taken from.
#[derive(Clone, Copy, Debug, PartialEq, Eq, Structural, Hash)]
pub enum MintMaxVoteWeightSource {
    /// A fraction of the mint's supply, in parts of `SUPPLY_FRACTION_BASE`.
    SupplyFraction(u64),
    /// A fixed amount.
    Absolute(u64),
}

/// The fraction that stands for the whole supply.
pub const SUPPLY_FRACTION_BASE: u64 = 10_000_000_000;

// ---------------------------------------------------------------------------
// Persisted layout
// ---------------------------------------------------------------------------

impl GovernanceAccountType {
    /// The byte that a record of this type begins with.
    pub open spec fn tag(self) -> u8 {
        match self {
            GovernanceAccountType::Uninitialized => 0,
            GovernanceAccountType::Realm => 1,
            GovernanceAccountType::TokenOwnerRecord => 2,
            GovernanceAccountType::Governance => 3,
            GovernanceAccountType::ProgramGovernance => 4,
            GovernanceAccountType::Proposal => 5,
            GovernanceAccountType::SignatoryRecord => 6,
            GovernanceAccountType::VoteRecord => 7,
            GovernanceAccountType::ProposalTransaction => 8,
            GovernanceAccountType::MintGovernance => 9,
            GovernanceAccountType::TokenGovernance => 10,
            GovernanceAccountType::RealmConfig => 11,
            GovernanceAccountType::ProgramMetadata => 12,
        }
    }

    /// The type that a first byte stands for.
    pub open spec fn of_tag(tag: u8) -> Option<GovernanceAccountType> {
        if tag == 0 {
            Some(GovernanceAccountType::Uninitialized)
        } else if tag == 1 {
            Some(GovernanceAccountType::Realm)
        } else if tag == 2 {
            Some(GovernanceAccountType::TokenOwnerRecord)
        } else if tag == 3 {
            Some(GovernanceAccountType::Governance)
        } else if tag == 4 {
            Some(GovernanceAccountType::ProgramGovernance)
        } else if tag == 5 {
            Some(GovernanceAccountType::Proposal)
        } else if tag == 6 {
            Some(GovernanceAccountType::SignatoryRecord)
        } else if tag == 7 {
            Some(GovernanceAccountType::VoteRecord)
        } else if tag == 8 {
            Some(GovernanceAccountType::ProposalTransaction)
        } else if tag == 9 {
            Some(GovernanceAccountType::MintGovernance)
        } else if tag == 10 {
            Some(GovernanceAccountType::TokenGovernance)
        } else if tag == 11 {
            Some(GovernanceAccountType::RealmConfig)
        } else if tag == 12 {
            Some(GovernanceAccountType::ProgramMetadata)
        } else {
            None
        }
    }

    pub fn to_tag(&self) -> (r: u8)
        ensures
            r == self.tag(),
    {
        match self {
            GovernanceAccountType::Uninitialized => 0,
            GovernanceAccountType::Realm => 1,
            GovernanceAccountType::TokenOwnerRecord => 2,
            GovernanceAccountType::Governance => 3,
            GovernanceAccountType::ProgramGovernance => 4,
            GovernanceAccountType::Proposal => 5,
            GovernanceAccountType::SignatoryRecord => 6,
            GovernanceAccountType::VoteRecord => 7,
            GovernanceAccountType::ProposalTransaction => 8,
            GovernanceAccountType::MintGovernance => 9,
            GovernanceAccountType::TokenGovernance => 10,
            GovernanceAccountType::RealmConfig => 11,
            GovernanceAccountType::ProgramMetadata => 12,
        }
    }

    pub fn from_tag(tag: u8) -> (r: Option<GovernanceAccountType>)
        ensures
            r == GovernanceAccountType::of_tag(tag),
    {
        match tag {
            0 => Some(GovernanceAccountType::Uninitialized),
            1 => Some(GovernanceAccountType::Realm),
            2 => Some(GovernanceAccountType::TokenOwnerRecord),
            3 => Some(GovernanceAccountType::Governance),
            4 => Some(GovernanceAccountType::ProgramGovernance),
            5 => Some(GovernanceAccountType::Proposal),
            6 => Some(GovernanceAccountType::SignatoryRecord),
            7 => Some(GovernanceAccountType::VoteRecord),
            8 => Some(GovernanceAccountType::ProposalTransaction),
            9 => Some(GovernanceAccountType::MintGovernance),
            10 => Some(GovernanceAccountType::TokenGovernance),
            11 => Some(GovernanceAccountType::RealmConfig),
            12 => Some(GovernanceAccountType::ProgramMetadata),
            _ => None,
        }
    }

    /// A type is found again from its byte.
    pub proof fn lemma_tag_round_trip(t: GovernanceAccountType)
        ensures
            GovernanceAccountType::of_tag(t.tag()) == Some(t),
    {
    }
}

pub open spec fn wire_account_type(v: GovernanceAccountType) -> Seq<u8> {
    seq![v.tag()]
}

pub open spec fn parse_account_type(s: Seq<u8>) -> Parsed<GovernanceAccountType> {
    if s.len() >= 1 && GovernanceAccountType::of_tag(s[0]) is Some {
        Some((GovernanceAccountType::of_tag(s[0])->0, s.skip(1)))
    } else {
        None
    }
}

pub(crate) fn read_account_type(data: &[u8], pos: usize) -> (r: Option<(GovernanceAccountType, usize)>)
    requires
        pos <= data@.len(),
    ensures
        reads(r, data@, pos, parse_account_type(data@.skip(pos as int))),
{
    let (tag, next) = read_u8(data, pos)?;
    let v = GovernanceAccountType::from_tag(tag)?;
    Some((v, next))
}

pub(crate) fn write_account_type(buf: &mut Vec<u8>, v: &GovernanceAccountType)
    ensures
        final(buf)@ == old(buf)@ + wire_account_type(*v),
{
    write_u8(buf, v.to_tag());
}

pub open spec fn wire_vote_threshold(v: VoteThresholdPercentage) -> Seq<u8> {
    match v {
        VoteThresholdPercentage::YesVote(p) => seq![0u8, p],
        VoteThresholdPercentage::Quorum(p) => seq![1u8, p],
    }
}

pub open spec fn parse_vote_threshold(s: Seq<u8>) -> Parsed<VoteThresholdPercentage> {
    if s.len() >= 2 && s[0] == 0 {
        Some((VoteThresholdPercentage::YesVote(s[1]), s.skip(2)))
    } else if s.len() >= 2 && s[0] == 1 {
        Some((VoteThresholdPercentage::Quorum(s[1]), s.skip(2)))
    } else {
        None
    }
}

pub(crate) fn read_vote_threshold(data: &[u8], pos: usize) -> (r: Option<(VoteThresholdPercentage, usize)>)
    requires
        pos <= data@.len(),
    ensures
        reads(r, data@, pos, parse_vote_threshold(data@.skip(pos as int))),
{
    let (tag, next) = read_u8(data, pos)?;
    if tag > 1 {
        return None;
    }
    assert(next == pos + 1);
    let (percent, next) = read_u8(data, next)?;
    assert(next == pos + 2);
    assert(data@.skip(pos as int).skip(2) =~= data@.skip(pos + 2));
    assert(data@.skip(pos as int)[1] == data@.skip(pos + 1)[0]);
    if tag == 0 {
        Some((VoteThresholdPercentage::YesVote(percent), next))
    } else {
        Some((VoteThresholdPercentage::Quorum(percent), next))
    }
}

pub(crate) fn write_vote_threshold(buf: &mut Vec<u8>, v: &VoteThresholdPercentage)
    ensures
        final(buf)@ == old(buf)@ + wire_vote_threshold(*v),
{
    match v {
        VoteThresholdPercentage::YesVote(p) => {
            buf.push(0);
            buf.push(*p);
        },
        VoteThresholdPercentage::Quorum(p) => {
            buf.push(1);
            buf.push(*p);
        },
    }
    assert(buf@ =~= old(buf)@ + wire_vote_threshold(*v));
}

pub open spec fn wire_vote_tipping(v: VoteTipping) -> Seq<u8> {
    match v {
        VoteTipping::Strict => seq![0u8],
        VoteTipping::Early => seq![1u8],
        VoteTipping::Disabled => seq![2u8],
    }
}

pub open spec fn parse_vote_tipping(s: Seq<u8>) -> Parsed<VoteTipping> {
    if s.len() >= 1 && s[0] == 0 {
        Some((VoteTipping::Strict, s.skip(1)))
    } else if s.len() >= 1 && s[0] == 1 {
        Some((VoteTipping::Early, s.skip(1)))
    } else if s.len() >= 1 && s[0] == 2 {
        Some((VoteTipping::Disabled, s.skip(1)))
    } else {
        None
    }
}

pub(crate) fn read_vote_tipping(data: &[u8], pos: usize) -> (r: Option<(VoteTipping, usize)>)
    requires
        pos <= data@.len(),
    ensures
        reads(r, data@, pos, parse_vote_tipping(data@.skip(pos as int))),
{
    let (tag, next) = read_u8(data, pos)?;
    match tag {
        0 => Some((VoteTipping::Strict, next)),
        1 => Some((VoteTipping::Early, next)),
        2 => Some((VoteTipping::Disabled, next)),
        _ => None,
    }
}

pub(crate) fn write_vote_tipping(buf: &mut Vec<u8>, v: &VoteTipping)
    ensures
        final(buf)@ == old(buf)@ + wire_vote_tipping(*v),
{
    match v {
        VoteTipping::Strict => buf.push(0),
        VoteTipping::Early => buf.push(1),
        VoteTipping::Disabled => buf.push(2),
    }
    assert(buf@ =~= old(buf)@ + wire_vote_tipping(*v));
}

pub open spec fn wire_execution_status(v: TransactionExecutionStatus) -> Seq<u8> {
    match v {
        TransactionExecutionStatus::Unexecuted => seq![0u8],
        TransactionExecutionStatus::Success => seq![1u8],
        TransactionExecutionStatus::Error => seq![2u8],
    }
}

pub open spec fn parse_execution_status(s: Seq<u8>) -> Parsed<TransactionExecutionStatus> {
    if s.len() >= 1 && s[0] == 0 {
        Some((TransactionExecutionStatus::Unexecuted, s.skip(1)))
    } else if s.len() >= 1 && s[0] == 1 {
        Some((TransactionExecutionStatus::Success, s.skip(1)))
    } else if s.len() >= 1 && s[0] == 2 {
        Some((TransactionExecutionStatus::Error, s.skip(1)))
    } else {
        None
    }
}

pub(crate) fn read_execution_status(data: &[u8], pos: usize) -> (r: Option<
    (TransactionExecutionStatus, usize),
>)
    requires
        pos <= data@.len(),
    ensures
        reads(r, data@, pos, parse_execution_status(data@.skip(pos as int))),
{
    let (tag, next) = read_u8(data, pos)?;
    match tag {
        0 => Some((TransactionExecutionStatus::Unexecuted, next)),
        1 => Some((TransactionExecutionStatus::Success, next)),
        2 => Some((TransactionExecutionStatus::Error, next)),
        _ => None,
    }
}

pub(crate) fn write_execution_status(buf: &mut Vec<u8>, v: &TransactionExecutionStatus)
    ensures
        final(buf)@ == old(buf)@ + wire_execution_status(*v),
{
    match v {
        TransactionExecutionStatus::Unexecuted => buf.push(0),
        TransactionExecutionStatus::Success => buf.push(1),
        TransactionExecutionStatus::Error => buf.push(2),
    }
    assert(buf@ =~= old(buf)@ + wire_execution_status(*v));
}

pub open spec fn wire_max_vote_weight_source(v: MintMaxVoteWeightSource) -> Seq<u8> {
    match v {
        MintMaxVoteWeightSource::SupplyFraction(x) => seq![0u8] + wire_u64(x),
        MintMaxVoteWeightSource::Absolute(x) => seq![1u8] + wire_u64(x),
    }
}

pub open spec fn parse_max_vote_weight_source(s: Seq<u8>) -> Parsed<MintMaxVoteWeightSource> {
    let amount = parse_u64(s.skip(1));
    if s.len() >= 1 && s[0] == 0 && amount is Some {
        Some((MintMaxVoteWeightSource::SupplyFraction(value_of(amount)), rest_of(amount)))
    } else if s.len() >= 1 && s[0] == 1 && amount is Some {
        Some((MintMaxVoteWeightSource::Absolute(value_of(amount)), rest_of(amount)))
    } else {
        None
    }
}

pub(crate) fn read_max_vote_weight_source(data: &[u8], pos: usize) -> (r: Option<
    (MintMaxVoteWeightSource, usize),
>)
    requires
        pos <= data@.len(),
    ensures
        reads(r, data@, pos, parse_max_vote_weight_source(data@.skip(pos as int))),
{
    let (tag, next) = read_u8(data, pos)?;
    if tag > 1 {
        return None;
    }
    let (amount, next) = read_u64(data, next)?;
    if tag == 0 {
        Some((MintMaxVoteWeightSource::SupplyFraction(amount), next))
    } else {
        Some((MintMaxVoteWeightSource::Absolute(amount), next))
    }
}

pub(crate) fn write_max_vote_weight_source(buf: &mut Vec<u8>, v: &MintMaxVoteWeightSource)
    ensures
        final(buf)@ == old(buf)@ + wire_max_vote_weight_source(*v),
{
    match v {
        MintMaxVoteWeightSource::SupplyFraction(x) => {
            buf.push(0);
            write_u64(buf, *x);
        },
        MintMaxVoteWeightSource::Absolute(x) => {
            buf.push(1);
            write_u64(buf, *x);
        },
    }
    assert(buf@ =~= old(buf)@ + wire_max_vote_weight_source(*v));
}

// ---------------------------------------------------------------------------
// Reading undoes writing
// ---------------------------------------------------------------------------

/// An account type is read back from its byte, whatever follows.
pub proof fn lemma_account_type_round_trip(v: GovernanceAccountType, rest: Seq<u8>)
    ensures
        parse_account_type(wire_account_type(v) + rest) == Some((v, rest)),
        wire_account_type(v).len() == 1,
{
    assert((wire_account_type(v) + rest).skip(1) =~= rest);
}

/// A vote threshold is read back from its bytes.
pub proof fn lemma_vote_threshold_round_trip(v: VoteThresholdPercentage, rest: Seq<u8>)
    ensures
        parse_vote_threshold(wire_vote_threshold(v) + rest) == Some((v, rest)),
        wire_vote_threshold(v).len() == 2,
{
    assert((wire_vote_threshold(v) + rest).skip(2) =~= rest);
}

/// A vote tipping is read back from its byte.
pub proof fn lemma_vote_tipping_round_trip(v: VoteTipping, rest: Seq<u8>)
    ensures
        parse_vote_tipping(wire_vote_tipping(v) + rest) == Some((v, rest)),
        wire_vote_tipping(v).len() == 1,
{
    assert((wire_vote_tipping(v) + rest).skip(1) =~= rest);
}

/// An execution status is read back from its byte.
pub proof fn lemma_execution_status_round_trip(v: TransactionExecutionStatus, rest: Seq<u8>)
    ensures
        parse_execution_status(wire_execution_status(v) + rest) == Some((v, rest)),
        wire_execution_status(v).len() == 1,
{
    assert((wire_execution_status(v) + rest).skip(1) =~= rest);
}

/// A source of the maximum vote weight is read back from its bytes.
pub proof fn lemma_max_vote_weight_source_round_trip(v: MintMaxVoteWeightSource, rest: Seq<u8>)
    ensures
        parse_max_vote_weight_source(wire_max_vote_weight_source(v) + rest) == Some((v, rest)),
        wire_max_vote_weight_source(v).len() == 9,
{
    let s = wire_max_vote_weight_source(v) + rest;
    let amount = match v {
        MintMaxVoteWeightSource::SupplyFraction(x) => x,
        MintMaxVoteWeightSource::Absolute(x) => x,
    };
    crate::wire::lemma_u64_round_trip(amount, rest);
    assert(s.skip(1) =~= wire_u64(amount) + rest);
}

} // verus!
