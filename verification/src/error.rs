//! Errors of the ledger.

use vstd::prelude::*;

verus! {

/// Why the governance program refuses an instruction.
#[derive(Clone, Copy, Debug, PartialEq, Eq, Structural, Hash)]
pub enum GovernanceError {
    /// A realm already lives at the address derived from the name.
    RealmAlreadyExists,
    /// The mint is neither the community nor the council mint of the realm.
    InvalidGoverningTokenMint,
    /// The holding account is not the one derived for the realm and the mint.
    InvalidGoverningTokenHoldingAccount,
    /// The weight of the mint comes from an add-in, so deposits are closed.
    GoverningTokenDepositsNotAllowed,
    /// The owner of the deposited tokens did not sign.
    GoverningTokenOwnerMustSign,
    /// The token account holds no data.
    SplTokenAccountDoesNotExist,
    /// The token account is not owned by the token program.
    SplTokenAccountWithInvalidOwner,
    /// The token account's data is not as long as a token account.
    SplTokenInvalidTokenAccountData,
    /// The token account is not in use.
    SplTokenAccountNotInitialized,
    /// Neither the token owner nor the delegate signed.
    GoverningTokenOwnerOrDelegateMustSign,
    /// Votes are still outstanding, so nothing can be withdrawn.
    AllVotesMustBeRelinquishedToWithdrawGoverningTokens,
    /// The record is at another address than the one derived for it.
    InvalidTokenOwnerRecordAccountAddress,
    /// The record belongs to another realm.
    InvalidRealmForTokenOwnerRecord,
    /// The realm has an authority and it did not sign.
    RealmAuthorityMustSign,
    /// The realm has no authority.
    RealmHasNoAuthority,
    /// The council mint of a realm can be neither changed nor removed.
    RealmCouncilMintChangeIsNotSupported,
    /// The governance itself must sign a change of its config.
    GovernancePdaMustSign,
    /// The given authority is not the authority of the realm.
    InvalidAuthorityForRealm,
    /// The governance belongs to another realm.
    InvalidRealmForGovernance,
    /// The governance is at another address than the one derived for it.
    InvalidGovernanceAccountAddress,
    /// The voter's weight is under the realm's minimum to create a governance.
    NotEnoughTokensToCreateGovernance,
    /// The yes-vote threshold is outside 1..=100.
    InvalidVoteThresholdPercentage,
    /// Only the yes-vote threshold is supported.
    VoteThresholdPercentageTypeNotSupported,
    /// A cool-off time other than zero is not supported.
    ProposalCoolOffTimeNotSupported,
    /// The supply fraction is outside 1..=SUPPLY_FRACTION_BASE.
    InvalidMaxVoteWeightSupplyFraction,
    /// An absolute maximum vote weight is not supported.
    MintMaxVoteWeightSourceNotSupported,
    /// A choice weighs neither 0 nor 100 percent.
    InvalidVoteChoiceWeightPercentage,
    /// A vote was already cast by this owner on this proposal.
    VoteAlreadyExists,
    /// The vote was relinquished before.
    VoteAlreadyRelinquished,
    /// The vote record is at another address than the one derived for it.
    InvalidVoteRecordAccountAddress,
    /// The vote record belongs to another proposal.
    InvalidProposalForVoterRecord,
    /// The vote record belongs to another token owner.
    InvalidGoverningTokenOwnerForVoteRecord,
    /// The transaction belongs to another proposal.
    InvalidProposalForProposalTransaction,
    /// The transaction is at another address than the one derived for it.
    InvalidProposalTransactionAccountAddress,
    /// A transaction with this index is already queued for the option.
    TransactionAlreadyExists,
    /// The transaction was executed before.
    TransactionAlreadyExecuted,
    /// The hold-up time has not passed since voting ended.
    CannotExecuteTransactionWithinHoldUpTime,
    /// The depositor is not verified under the realm.
    UserIdentityNotKnown,
    /// An amount or a count left the range of its type.
    NumericalOverflow,
}

/// Why an account cannot be read as a record of a program.
#[derive(Clone, Copy, Debug, PartialEq, Eq, Structural, Hash)]
pub enum GovernanceToolsError {
    /// The account holds data or is owned by a program already.
    AccountAlreadyInitialized,
    /// The account holds no data.
    AccountDoesNotExist,
    /// The account is owned by another program.
    InvalidAccountOwner,
    /// The record is of another type.
    InvalidAccountType,
}

/// The error of an instruction.
#[derive(Clone, Copy, Debug, PartialEq, Eq, Structural, Hash)]
pub enum ProgramError {
    /// The governance rules refuse the instruction.
    Governance(GovernanceError),
    /// An account is not the record it is taken for.
    Tools(GovernanceToolsError),
    /// Fewer accounts were handed over than the instruction reads.
    NotEnoughAccountKeys,
    /// The record's type byte says that it was never written.
    UninitializedAccount,
    /// The bytes are not a value in the persisted layout, or the value does
    /// not fit the layout.
    BorshIoError,
    /// The token program is not the one that the transfer is built for.
    IncorrectProgramId,
    /// The seeds derive no address, or another one than the account's.
    InvalidSeeds,
    /// An argument of the instruction is out of range.
    InvalidArgument,
    /// An account that must have signed did not.
    MissingRequiredSignature,
    /// An account is owned by another program than the one it must be owned
    /// by.
    IllegalOwner,
    /// An account's data is not what the instruction takes it for.
    InvalidAccountData,
    /// An account that is to be written to is read-only.
    Immutable,
}

} // verus!
