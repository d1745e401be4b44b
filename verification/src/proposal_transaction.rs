//! ProposalTransaction Account: a batch of instructions queued for a
//! proposal, to be executed once the proposal passed and the hold-up time
//! is over.

use vstd::bytes::u16_to_le_bytes;
use vstd::prelude::*;

use crate::account::{account_check, assert_account_exists, AccountInfo};
use crate::enums::{
    parse_account_type, parse_execution_status, read_account_type, read_execution_status,
    wire_account_type, wire_execution_status, write_account_type, write_execution_status,
    GovernanceAccountType, TransactionExecutionStatus,
};
use crate::error::{GovernanceError, ProgramError};
use crate::pubkey::{derive_address, seeds_of, Pubkey, PROGRAM_AUTHORITY_SEED};
use crate::wire::{
    array_of, lemma_array_of, parse_array, parse_bytes, parse_option_i64, parse_pubkey,
    parse_u16, parse_u32, parse_u8, read_array, read_bytes, read_option_i64, read_pubkey,
    read_u16, read_u32, read_u8, reads, rest_of, value_of, wire_bool, wire_bytes,
    wire_option_i64, wire_pubkey, wire_u16, wire_u32, wire_u8, write_bool, write_bytes,
    write_option_i64, write_pubkey, write_slice, write_u16, write_u32, write_u8, Parsed,
};

verus! {

/// Account metadata used to define Instructions
#[derive(Clone, Copy, Debug, PartialEq, Eq)]
pub struct AccountMetaData {
    /// An account's public key
    pub pubkey: Pubkey,
    /// True if an Instruction requires a Transaction signature matching `pubkey`.
    pub is_signer: bool,
    /// True if the `pubkey` can be loaded as a read-write account.
    pub is_writable: bool,
}

/// An instruction as the ledger stores it.
#[derive(Clone, Debug, PartialEq, Eq)]
pub struct InstructionData {
    /// Pubkey of the instruction processor that executes this instruction
    pub program_id: Pubkey,
    /// Metadata for what accounts should be passed to the instruction processor
    pub accounts: Vec<AccountMetaData>,
    /// Opaque data passed to the instruction processor
    pub data: Vec<u8>,
}

/// An instruction as a value.
pub struct InstructionDataView {
    pub program_id: Pubkey,
    pub accounts: Seq<AccountMetaData>,
    pub data: Seq<u8>,
}

impl View for InstructionData {
    type V = InstructionDataView;

    open spec fn view(&self) -> InstructionDataView {
        InstructionDataView {
            program_id: self.program_id,
            accounts: self.accounts@,
            data: self.data@,
        }
    }
}

/// The instructions of a vector as values.
pub open spec fn instructions_view(v: Seq<InstructionData>) -> Seq<InstructionDataView> {
    Seq::new(v.len(), |i: int| v[i]@)
}

/// Account for an instruction to be executed for Proposal
#[derive(Clone, Debug, PartialEq, Eq)]
pub struct ProposalTransaction {
    /// Governance Account type
    pub account_type: GovernanceAccountType,
    /// The Proposal the instruction belongs to
    pub proposal: Pubkey,
    /// The option index the instruction belongs to
    pub option_index: u8,
    /// Unique transaction index within its parent Proposal
    pub transaction_index: u16,
    /// Minimum waiting time in seconds for the instruction to be executed
    /// once proposal is voted on
    pub hold_up_time: u32,
    /// Instructions to execute, signed by the Governance PDA the Proposal
    /// belongs to
    pub instructions: Vec<InstructionData>,
    /// Executed at flag
    pub executed_at: Option<i64>,
    /// Instruction execution status
    pub execution_status: TransactionExecutionStatus,
    /// Reserved space for later versions
    pub reserved_v2: [u8; 8],
}

/// A queued transaction as a value.
pub struct ProposalTransactionView {
    pub account_type: GovernanceAccountType,
    pub proposal: Pubkey,
    pub option_index: u8,
    pub transaction_index: u16,
    pub hold_up_time: u32,
    pub instructions: Seq<InstructionDataView>,
    pub executed_at: Option<i64>,
    pub execution_status: TransactionExecutionStatus,
    pub reserved_v2: [u8; 8],
}

impl View for ProposalTransaction {
    type V = ProposalTransactionView;

    open spec fn view(&self) -> ProposalTransactionView {
        ProposalTransactionView {
            account_type: self.account_type,
            proposal: self.proposal,
            option_index: self.option_index,
            transaction_index: self.transaction_index,
            hold_up_time: self.hold_up_time,
            instructions: instructions_view(self.instructions@),
            executed_at: self.executed_at,
            execution_status: self.execution_status,
            reserved_v2: self.reserved_v2,
        }
    }
}

// ---------------------------------------------------------------------------
// Persisted layout: what is written
// ---------------------------------------------------------------------------

/// Bytes of one account meta: the key and two flags.
pub const ACCOUNT_META_SIZE: usize = 34;

pub open spec fn wire_account_meta(m: AccountMetaData) -> Seq<u8> {
    wire_pubkey(m.pubkey) + wire_bool(m.is_signer) + wire_bool(m.is_writable)
}

pub open spec fn wire_account_metas(v: Seq<AccountMetaData>) -> Seq<u8>
    decreases v.len(),
{
    if v.len() == 0 {
        Seq::empty()
    } else {
        wire_account_metas(v.drop_last()) + wire_account_meta(v.last())
    }
}

pub open spec fn wire_instruction(i: InstructionDataView) -> Seq<u8> {
    wire_pubkey(i.program_id) + wire_u32(i.accounts.len() as u32) + wire_account_metas(i.accounts)
        + wire_bytes(i.data)
}

pub open spec fn wire_instructions(v: Seq<InstructionDataView>) -> Seq<u8>
    decreases v.len(),
{
    if v.len() == 0 {
        Seq::empty()
    } else {
        wire_instructions(v.drop_last()) + wire_instruction(v.last())
    }
}

pub open spec fn wire_proposal_transaction(t: ProposalTransactionView) -> Seq<u8> {
    wire_account_type(t.account_type) + wire_pubkey(t.proposal) + wire_u8(t.option_index)
        + wire_u16(t.transaction_index) + wire_u32(t.hold_up_time) + wire_u32(
        t.instructions.len() as u32,
    ) + wire_instructions(t.instructions) + wire_option_i64(t.executed_at)
        + wire_execution_status(t.execution_status) + t.reserved_v2@
}

/// The instruction has no more accounts and no more data than a length
/// field counts.
pub open spec fn instruction_fits(i: InstructionDataView) -> bool {
    i.accounts.len() <= u32::MAX && i.data.len() <= u32::MAX
}

/// Every instruction fits.
pub open spec fn all_instructions_fit(v: Seq<InstructionDataView>) -> bool {
    forall|i: int| 0 <= i < v.len() ==> instruction_fits(#[trigger] v[i])
}

/// The transaction can be written.
pub open spec fn transaction_fits(t: ProposalTransactionView) -> bool {
    t.instructions.len() <= u32::MAX && all_instructions_fit(t.instructions)
}

// ---------------------------------------------------------------------------
// Persisted layout: what is read
// ---------------------------------------------------------------------------

/// The account meta that the `i`-th group of 34 bytes stands for.
pub open spec fn account_meta_at(s: Seq<u8>, i: int) -> AccountMetaData {
    AccountMetaData {
        pubkey: Pubkey { bytes: array_of::<32>(s.subrange(34 * i, 34 * i + 32)) },
        is_signer: s[34 * i + 32] == 1,
        is_writable: s[34 * i + 33] == 1,
    }
}

/// The flags of the `i`-th group are booleans.
pub open spec fn account_meta_valid_at(s: Seq<u8>, i: int) -> bool {
    s[34 * i + 32] <= 1 && s[34 * i + 33] <= 1
}

pub open spec fn account_metas_valid(s: Seq<u8>, n: nat) -> bool {
    forall|i: int| 0 <= i < n ==> #[trigger] account_meta_valid_at(s, i)
}

pub open spec fn parse_account_metas(s: Seq<u8>, n: nat) -> Parsed<Seq<AccountMetaData>> {
    if s.len() >= 34 * n && account_metas_valid(s, n) {
        Some((Seq::new(n, |i: int| account_meta_at(s, i)), s.skip(34 * n as int)))
    } else {
        None
    }
}

pub open spec fn parse_instruction(s: Seq<u8>) -> Parsed<InstructionDataView> {
    let a = parse_pubkey(s);
    let n = parse_u32(rest_of(a));
    let m = parse_account_metas(rest_of(n), value_of(n) as nat);
    let d = parse_bytes(rest_of(m));
    if a is Some && n is Some && m is Some && d is Some {
        Some(
            (
                InstructionDataView {
                    program_id: value_of(a),
                    accounts: value_of(m),
                    data: value_of(d),
                },
                rest_of(d),
            ),
        )
    } else {
        None
    }
}

/// `n` instructions, one after the other.
pub open spec fn parse_instructions(s: Seq<u8>, n: nat) -> Parsed<Seq<InstructionDataView>>
    decreases n,
{
    if n == 0 {
        Some((Seq::empty(), s))
    } else {
        let first = parse_instruction(s);
        let others = parse_instructions(rest_of(first), (n - 1) as nat);
        if first is Some && others is Some {
            Some((seq![value_of(first)] + value_of(others), rest_of(others)))
        } else {
            None
        }
    }
}

pub open spec fn parse_proposal_transaction(s: Seq<u8>) -> Parsed<ProposalTransactionView> {
    let a = parse_account_type(s);
    let b = parse_pubkey(rest_of(a));
    let c = parse_u8(rest_of(b));
    let d = parse_u16(rest_of(c));
    let e = parse_u32(rest_of(d));
    let n = parse_u32(rest_of(e));
    let f = parse_instructions(rest_of(n), value_of(n) as nat);
    let g = parse_option_i64(rest_of(f));
    let h = parse_execution_status(rest_of(g));
    let i = parse_array::<8>(rest_of(h));
    if a is Some && b is Some && c is Some && d is Some && e is Some && n is Some && f is Some
        && g is Some && h is Some && i is Some {
        Some(
            (
                ProposalTransactionView {
                    account_type: value_of(a),
                    proposal: value_of(b),
                    option_index: value_of(c),
                    transaction_index: value_of(d),
                    hold_up_time: value_of(e),
                    instructions: value_of(f),
                    executed_at: value_of(g),
                    execution_status: value_of(h),
                    reserved_v2: value_of(i),
                },
                rest_of(i),
            ),
        )
    } else {
        None
    }
}

// ---------------------------------------------------------------------------
// Reading
// ---------------------------------------------------------------------------

#[verifier::rlimit(50)]
fn read_account_metas(data: &[u8], pos: usize, n: usize) -> (r: Option<
    (Vec<AccountMetaData>, usize),
>)
    requires
        pos <= data@.len(),
    ensures
        match r {
            Some((v, next)) => reads(
                Some((v@, next)),
                data@,
                pos,
                parse_account_metas(data@.skip(pos as int), n as nat),
            ),
            None => parse_account_metas(data@.skip(pos as int), n as nat) is None,
        },
{
    let ghost s = data@.skip(pos as int);
    if (data.len() - pos) / 34 < n {
        return None;
    }
    let mut out: Vec<AccountMetaData> = Vec::new();
    let mut i: usize = 0;
    while i < n
        invariant
            i <= n,
            pos + 34 * n <= data@.len(),
            data@.len() <= usize::MAX,
            s == data@.skip(pos as int),
            out@ == Seq::new(i as nat, |k: int| account_meta_at(s, k)),
            forall|k: int| 0 <= k < i ==> #[trigger] account_meta_valid_at(s, k),
        decreases n - i,
    {
        let at = pos + 34 * i;
        let (bytes, _) = match read_array::<32>(data, at) {
            Some(x) => x,
            None => {
                return None;
            },
        };
        let signer = data[at + 32];
        let writable = data[at + 33];
        proof {
            assert(data@.skip(at as int).take(32) =~= s.subrange(34 * i, 34 * i + 32));
            assert(s[34 * i + 32] == signer);
            assert(s[34 * i + 33] == writable);
        }
        if signer > 1 || writable > 1 {
            assert(!account_meta_valid_at(s, i as int));
            return None;
        }
        out.push(AccountMetaData { pubkey: Pubkey { bytes }, is_signer: signer == 1, is_writable: writable == 1 });
        assert(out@ =~= Seq::new((i + 1) as nat, |k: int| account_meta_at(s, k)));
        i += 1;
    }
    assert(s.skip(34 * n as int) =~= data@.skip(pos + 34 * n));
    Some((out, pos + 34 * n))
}

fn read_instruction(data: &[u8], pos: usize) -> (r: Option<(InstructionData, usize)>)
    requires
        pos <= data@.len(),
    ensures
        match r {
            Some((v, next)) => reads(
                Some((v@, next)),
                data@,
                pos,
                parse_instruction(data@.skip(pos as int)),
            ),
            None => parse_instruction(data@.skip(pos as int)) is None,
        },
{
    let (program_id, pos) = read_pubkey(data, pos)?;
    let (n, pos) = read_u32(data, pos)?;
    let (accounts, pos) = read_account_metas(data, pos, n as usize)?;
    let (bytes, pos) = read_bytes(data, pos)?;
    Some((InstructionData { program_id, accounts, data: bytes }, pos))
}

/// What is read so far, put before what is still to be read.
spec fn prepend(done: Seq<InstructionDataView>, todo: Parsed<Seq<InstructionDataView>>) -> Parsed<
    Seq<InstructionDataView>,
> {
    match todo {
        Some((v, rest)) => Some((done + v, rest)),
        None => None,
    }
}

#[verifier::rlimit(50)]
fn read_instructions(data: &[u8], pos: usize, n: usize) -> (r: Option<
    (Vec<InstructionData>, usize),
>)
    requires
        pos <= data@.len(),
    ensures
        match r {
            Some((v, next)) => reads(
                Some((instructions_view(v@), next)),
                data@,
                pos,
                parse_instructions(data@.skip(pos as int), n as nat),
            ),
            None => parse_instructions(data@.skip(pos as int), n as nat) is None,
        },
{
    let ghost whole = parse_instructions(data@.skip(pos as int), n as nat);
    let mut out: Vec<InstructionData> = Vec::new();
    let mut at: usize = pos;
    let mut i: usize = 0;
    proof {
        let p = parse_instructions(data@.skip(at as int), n as nat);
        if p is Some {
            assert(instructions_view(out@) + value_of(p) =~= value_of(p));
        }
    }
    while i < n
        invariant
            i <= n,
            pos <= at <= data@.len(),
            whole == parse_instructions(data@.skip(pos as int), n as nat),
            whole == prepend(
                instructions_view(out@),
                parse_instructions(data@.skip(at as int), (n - i) as nat),
            ),
        decreases n - i,
    {
        let ghost before = instructions_view(out@);
        let ghost cur = data@.skip(at as int);
        let (instruction, next) = match read_instruction(data, at) {
            Some(x) => x,
            None => {
                assert(parse_instructions(cur, (n - i) as nat) is None);
                return None;
            },
        };
        let ghost first = instruction@;
        out.push(instruction);
        proof {
            let others = parse_instructions(data@.skip(next as int), (n - i - 1) as nat);
            assert(instructions_view(out@) =~= before.push(first));
            if others is Some {
                assert(before + (seq![first] + value_of(others)) =~= before.push(first)
                    + value_of(others));
            }
        }
        at = next;
        i += 1;
    }
    proof {
        assert(instructions_view(out@) + Seq::<InstructionDataView>::empty() =~= instructions_view(
            out@,
        ));
    }
    Some((out, at))
}

// ---------------------------------------------------------------------------
// Writing
// ---------------------------------------------------------------------------

fn write_account_metas(buf: &mut Vec<u8>, metas: &Vec<AccountMetaData>)
    ensures
        final(buf)@ == old(buf)@ + wire_account_metas(metas@),
{
    let mut i: usize = 0;
    assert(buf@ =~= old(buf)@ + wire_account_metas(metas@.take(0)));
    while i < metas.len()
        invariant
            i <= metas@.len(),
            buf@ == old(buf)@ + wire_account_metas(metas@.take(i as int)),
        decreases metas@.len() - i,
    {
        let meta = metas[i];
        let ghost so_far = buf@;
        write_pubkey(buf, &meta.pubkey);
        write_bool(buf, meta.is_signer);
        write_bool(buf, meta.is_writable);
        proof {
            let next = metas@.take(i + 1);
            assert(next.drop_last() =~= metas@.take(i as int));
            assert(next.last() == meta);
            assert(buf@ =~= so_far + wire_account_meta(meta));
            assert(buf@ =~= old(buf)@ + wire_account_metas(next));
        }
        i += 1;
    }
    assert(metas@.take(i as int) =~= metas@);
}

/// Writes the instruction, or nothing where it does not fit.
fn write_instruction(buf: &mut Vec<u8>, instruction: &InstructionData) -> (ok: bool)
    ensures
        ok == instruction_fits(instruction@),
        ok ==> final(buf)@ == old(buf)@ + wire_instruction(instruction@),
        !ok ==> final(buf)@ == old(buf)@,
{
    if instruction.accounts.len() > u32::MAX as usize || instruction.data.len() > u32::MAX as usize {
        return false;
    }
    write_pubkey(buf, &instruction.program_id);
    write_u32(buf, instruction.accounts.len() as u32);
    write_account_metas(buf, &instruction.accounts);
    write_bytes(buf, instruction.data.as_slice());
    assert(buf@ =~= old(buf)@ + wire_instruction(instruction@));
    true
}

/// Writes the instructions, or stops at the first that does not fit.
fn write_instructions(buf: &mut Vec<u8>, instructions: &Vec<InstructionData>) -> (ok: bool)
    ensures
        ok == all_instructions_fit(instructions_view(instructions@)),
        ok ==> final(buf)@ == old(buf)@ + wire_instructions(instructions_view(instructions@)),
{
    let ghost view = instructions_view(instructions@);
    let mut i: usize = 0;
    assert(buf@ =~= old(buf)@ + wire_instructions(view.take(0)));
    while i < instructions.len()
        invariant
            i <= instructions@.len(),
            view == instructions_view(instructions@),
            buf@ == old(buf)@ + wire_instructions(view.take(i as int)),
            forall|k: int| 0 <= k < i ==> instruction_fits(#[trigger] view[k]),
        decreases instructions@.len() - i,
    {
        let ghost so_far = buf@;
        if !write_instruction(buf, &instructions[i]) {
            assert(!instruction_fits(view[i as int]));
            return false;
        }
        proof {
            let next = view.take(i + 1);
            assert(next.drop_last() =~= view.take(i as int));
            assert(next.last() == instructions@[i as int]@);
            assert(buf@ =~= old(buf)@ + wire_instructions(next));
        }
        i += 1;
    }
    assert(view.take(i as int) =~= view);
    true
}

// ---------------------------------------------------------------------------
// Sizes
// ---------------------------------------------------------------------------

/// Bytes of a transaction without its instructions, the execution time
/// counted as present.
pub const PROPOSAL_TRANSACTION_FIXED_SIZE: usize = 62;

/// Bytes of an instruction besides its accounts and its data.
pub const INSTRUCTION_FIXED_SIZE: usize = 40;

/// Bytes of one instruction.
pub open spec fn instruction_size(i: InstructionDataView) -> nat {
    i.accounts.len() * 34 + i.data.len() + 40
}

/// Bytes of the instructions.
pub open spec fn instructions_size(v: Seq<InstructionDataView>) -> nat
    decreases v.len(),
{
    if v.len() == 0 {
        0
    } else {
        instructions_size(v.drop_last()) + instruction_size(v.last())
    }
}

proof fn lemma_instructions_size_step(v: Seq<InstructionDataView>, i: int)
    requires
        0 <= i < v.len(),
    ensures
        instructions_size(v.take(i + 1)) == instructions_size(v.take(i)) + instruction_size(v[i]),
{
    assert(v.take(i + 1).drop_last() =~= v.take(i));
}

proof fn lemma_instructions_size_monotone(v: Seq<InstructionDataView>, i: int)
    requires
        0 <= i <= v.len(),
    ensures
        instructions_size(v.take(i)) <= instructions_size(v),
    decreases v.len() - i,
{
    if i < v.len() {
        lemma_instructions_size_step(v, i);
        lemma_instructions_size_monotone(v, i + 1);
    } else {
        assert(v.take(i) =~= v);
    }
}

// ---------------------------------------------------------------------------
// Addresses
// ---------------------------------------------------------------------------

/// The seeds of a queued transaction: `governance`, the proposal, the option
/// index, the transaction index.
pub open spec fn proposal_transaction_address_seeds(
    proposal: Pubkey,
    option_index: Seq<u8>,
    instruction_index_le_bytes: Seq<u8>,
) -> Seq<Seq<u8>> {
    seq![PROGRAM_AUTHORITY_SEED@, proposal@, option_index, instruction_index_le_bytes]
}

/// The address derived from the seeds of a queued transaction.
pub open spec fn proposal_transaction_address_of(
    program_id: Pubkey,
    proposal: Pubkey,
    option_index: Seq<u8>,
    instruction_index_le_bytes: Seq<u8>,
) -> Option<Pubkey> {
    match derive_address(
        proposal_transaction_address_seeds(proposal, option_index, instruction_index_le_bytes),
        program_id,
    ) {
        Some((address, _)) => Some(address),
        None => None,
    }
}

/// The address of the transaction with that index for the option of the
/// proposal.
pub open spec fn proposal_transaction_address(
    program_id: Pubkey,
    proposal: Pubkey,
    option_index: u8,
    transaction_index: u16,
) -> Option<Pubkey> {
    proposal_transaction_address_of(
        program_id,
        proposal,
        seq![option_index],
        wire_u16(transaction_index),
    )
}

/// Returns ProposalTransaction PDA seeds
pub fn get_proposal_transaction_address_seeds<'a>(
    proposal: &'a Pubkey,
    option_index: &'a [u8; 1],
    instruction_index_le_bytes: &'a [u8; 2],
) -> (r: [&'a [u8]; 4])
    ensures
        seeds_of(r) == proposal_transaction_address_seeds(
            *proposal,
            option_index@,
            instruction_index_le_bytes@,
        ),
{
    let tag: &'static [u8; 10] = &PROGRAM_AUTHORITY_SEED;
    let r = [
        tag.as_slice(),
        proposal.as_ref(),
        option_index.as_slice(),
        instruction_index_le_bytes.as_slice(),
    ];
    assert(seeds_of(r) =~= proposal_transaction_address_seeds(
        *proposal,
        option_index@,
        instruction_index_le_bytes@,
    ));
    r
}

/// Derives the address once, where there is one.
pub(crate) fn derive_proposal_transaction_address(
    program_id: &Pubkey,
    proposal: &Pubkey,
    option_index_le_bytes: &[u8; 1],
    instruction_index_le_bytes: &[u8; 2],
) -> (r: Option<Pubkey>)
    ensures
        r == proposal_transaction_address_of(
            *program_id,
            *proposal,
            option_index_le_bytes@,
            instruction_index_le_bytes@,
        ),
{
    let seeds = get_proposal_transaction_address_seeds(
        proposal,
        option_index_le_bytes,
        instruction_index_le_bytes,
    );
    match Pubkey::try_find_address(&seeds, program_id) {
        Some((address, _)) => Some(address),
        None => None,
    }
}

/// Returns ProposalTransaction PDA address
pub fn get_proposal_transaction_address(
    program_id: &Pubkey,
    proposal: &Pubkey,
    option_index_le_bytes: &[u8; 1],
    instruction_index_le_bytes: &[u8; 2],
) -> (r: Pubkey)
    requires
        proposal_transaction_address_of(
            *program_id,
            *proposal,
            option_index_le_bytes@,
            instruction_index_le_bytes@,
        ) is Some,
    ensures
        Some(r) == proposal_transaction_address_of(
            *program_id,
            *proposal,
            option_index_le_bytes@,
            instruction_index_le_bytes@,
        ),
{
    let seeds = get_proposal_transaction_address_seeds(proposal, option_index_le_bytes, instruction_index_le_bytes);
    Pubkey::find_address(&seeds, program_id).0
}

/// Returns ProposalTransaction PDA address, where there is one.
pub fn try_get_proposal_transaction_address(
    program_id: &Pubkey,
    proposal: &Pubkey,
    option_index_le_bytes: &[u8; 1],
    instruction_index_le_bytes: &[u8; 2],
) -> (r: Option<Pubkey>)
    ensures
        r == proposal_transaction_address_of(
            *program_id,
            *proposal,
            option_index_le_bytes@,
            instruction_index_le_bytes@,
        ),
{
    match derive_proposal_transaction_address(program_id, proposal, option_index_le_bytes, instruction_index_le_bytes) {
        Some(_) => Some(get_proposal_transaction_address(program_id, proposal, option_index_le_bytes, instruction_index_le_bytes)),
        None => None,
    }
}

/// The address of the transaction with that index for the option of the
/// proposal, where there is one.
pub fn find_proposal_transaction_address(
    program_id: &Pubkey,
    proposal: &Pubkey,
    option_index: u8,
    transaction_index: u16,
) -> (r: Option<Pubkey>)
    ensures
        r == proposal_transaction_address(*program_id, *proposal, option_index, transaction_index),
{
    let le = u16_to_le_bytes(transaction_index);
    let option_bytes = [option_index];
    let index_bytes = [le[0], le[1]];
    assert(option_bytes@ =~= seq![option_index]);
    assert(index_bytes@ =~= wire_u16(transaction_index));
    derive_proposal_transaction_address(program_id, proposal, &option_bytes, &index_bytes)
}

// ---------------------------------------------------------------------------
// The records
// ---------------------------------------------------------------------------

impl AccountMetaData {
    pub fn new(pubkey: Pubkey, is_signer: bool, is_writable: bool) -> (r: AccountMetaData)
        ensures
            r == (AccountMetaData { pubkey, is_signer, is_writable }),
    {
        AccountMetaData { pubkey, is_signer, is_writable }
    }

    /// Serializes the account meta into the target buffer
    pub fn serialize(&self, writer: &mut Vec<u8>) -> (r: Result<(), ProgramError>)
        ensures
            r == Ok::<(), ProgramError>(()),
            final(writer)@ == old(writer)@ + wire_account_meta(*self),
            wire_account_meta(*self).len() == ACCOUNT_META_SIZE,
    {
        write_pubkey(writer, &self.pubkey);
        write_bool(writer, self.is_signer);
        write_bool(writer, self.is_writable);
        assert(writer@ =~= old(writer)@ + wire_account_meta(*self));
        Ok(())
    }
}

impl InstructionData {
    pub fn new(program_id: Pubkey, accounts: Vec<AccountMetaData>, data: Vec<u8>) -> (r:
        InstructionData)
        ensures
            r.program_id == program_id,
            r.accounts == accounts,
            r.data == data,
    {
        InstructionData { program_id, accounts, data }
    }

    /// Serializes the instruction into the target buffer. One with more
    /// accounts or more data than a length field counts cannot be written.
    pub fn serialize(&self, writer: &mut Vec<u8>) -> (r: Result<(), ProgramError>)
        ensures
            instruction_fits(self@) ==> r == Ok::<(), ProgramError>(()) && final(writer)@ == old(
                writer,
            )@ + wire_instruction(self@),
            !instruction_fits(self@) ==> r == Err::<(), ProgramError>(ProgramError::BorshIoError)
                && final(writer)@ == old(writer)@,
    {
        if write_instruction(writer, self) {
            Ok(())
        } else {
            Err(ProgramError::BorshIoError)
        }
    }

    /// Reads the instruction at the front of `data`; what follows it is
    /// ignored.
    pub fn deserialize(data: &[u8]) -> (r: Option<InstructionData>)
        ensures
            match r {
                Some(instruction) => parse_instruction(data@) is Some && value_of(
                    parse_instruction(data@),
                ) == instruction@,
                None => parse_instruction(data@) is None,
            },
    {
        assert(data@.skip(0) =~= data@);
        match read_instruction(data, 0) {
            Some((instruction, _)) => Some(instruction),
            None => None,
        }
    }
}

impl ProposalTransaction {
    /// The size of the account that holds the transaction: its
    /// instructions and 62 bytes, or `None` where that is more than a size
    /// can be.
    pub fn get_max_size(&self) -> (r: Option<usize>)
        ensures
            r == if instructions_size(self@.instructions) + PROPOSAL_TRANSACTION_FIXED_SIZE
                <= usize::MAX {
                Some(
                    (instructions_size(self@.instructions)
                        + PROPOSAL_TRANSACTION_FIXED_SIZE) as usize,
                )
            } else {
                None
            },
    {
        let ghost view = instructions_view(self.instructions@);
        let mut total: usize = 0;
        let mut i: usize = 0;
        while i < self.instructions.len()
            invariant
                i <= self.instructions@.len(),
                view == instructions_view(self.instructions@),
                total == instructions_size(view.take(i as int)),
            decreases self.instructions@.len() - i,
        {
            proof {
                lemma_instructions_size_step(view, i as int);
                lemma_instructions_size_monotone(view, i + 1);
            }
            let instruction = &self.instructions[i];
            assert(instruction@ == view[i as int]);
            let accounts = match instruction.accounts.len().checked_mul(ACCOUNT_META_SIZE) {
                Some(n) => n,
                None => {
                    return None;
                },
            };
            let with_data = match accounts.checked_add(instruction.data.len()) {
                Some(n) => n,
                None => {
                    return None;
                },
            };
            let size = match with_data.checked_add(INSTRUCTION_FIXED_SIZE) {
                Some(n) => n,
                None => {
                    return None;
                },
            };
            total = match total.checked_add(size) {
                Some(n) => n,
                None => {
                    return None;
                },
            };
            i += 1;
        }
        assert(view.take(i as int) =~= view);
        total.checked_add(PROPOSAL_TRANSACTION_FIXED_SIZE)
    }

    pub fn is_initialized(&self) -> (r: bool)
        ensures
            r == (self.account_type == GovernanceAccountType::ProposalTransaction),
    {
        self.account_type == GovernanceAccountType::ProposalTransaction
    }

    /// Reads the transaction at the front of `data`; what follows it is
    /// ignored.
    pub fn deserialize(data: &[u8]) -> (r: Option<ProposalTransaction>)
        ensures
            match r {
                Some(t) => parse_proposal_transaction(data@) is Some && value_of(
                    parse_proposal_transaction(data@),
                ) == t@,
                None => parse_proposal_transaction(data@) is None,
            },
    {
        assert(data@.skip(0) =~= data@);
        let (account_type, pos) = read_account_type(data, 0)?;
        let (proposal, pos) = read_pubkey(data, pos)?;
        let (option_index, pos) = read_u8(data, pos)?;
        let (transaction_index, pos) = read_u16(data, pos)?;
        let (hold_up_time, pos) = read_u32(data, pos)?;
        let (n, pos) = read_u32(data, pos)?;
        let (instructions, pos) = read_instructions(data, pos, n as usize)?;
        let (executed_at, pos) = read_option_i64(data, pos)?;
        let (execution_status, pos) = read_execution_status(data, pos)?;
        let (reserved_v2, _) = read_array::<8>(data, pos)?;
        Some(
            ProposalTransaction {
                account_type,
                proposal,
                option_index,
                transaction_index,
                hold_up_time,
                instructions,
                executed_at,
                execution_status,
                reserved_v2,
            },
        )
    }

    /// Serializes account into the target buffer. A transaction that does
    /// not fit the length fields cannot be written.
    pub fn serialize(self, writer: &mut Vec<u8>) -> (r: Result<(), ProgramError>)
        ensures
            transaction_fits(self@) ==> r == Ok::<(), ProgramError>(()) && final(writer)@ == old(
                writer,
            )@ + wire_proposal_transaction(self@),
            !transaction_fits(self@) ==> r == Err::<(), ProgramError>(ProgramError::BorshIoError)
                && final(writer)@ == old(writer)@,
    {
        if self.instructions.len() > u32::MAX as usize {
            return Err(ProgramError::BorshIoError);
        }
        let mut buf: Vec<u8> = Vec::new();
        write_account_type(&mut buf, &self.account_type);
        write_pubkey(&mut buf, &self.proposal);
        write_u8(&mut buf, self.option_index);
        write_u16(&mut buf, self.transaction_index);
        write_u32(&mut buf, self.hold_up_time);
        write_u32(&mut buf, self.instructions.len() as u32);
        if !write_instructions(&mut buf, &self.instructions) {
            return Err(ProgramError::BorshIoError);
        }
        write_option_i64(&mut buf, &self.executed_at);
        write_execution_status(&mut buf, &self.execution_status);
        write_slice(&mut buf, self.reserved_v2.as_slice());
        assert(buf@ =~= wire_proposal_transaction(self@));
        write_slice(writer, buf.as_slice());
        Ok(())
    }
}

// ---------------------------------------------------------------------------
// Reading a transaction off an account
// ---------------------------------------------------------------------------

/// The transaction that the account holds for the program.
pub open spec fn proposal_transaction_data(
    program_id: Pubkey,
    proposal_transaction_info: &AccountInfo,
) -> Result<ProposalTransactionView, ProgramError> {
    if account_check(program_id, proposal_transaction_info) is Err {
        Err(account_check(program_id, proposal_transaction_info)->Err_0)
    } else if parse_proposal_transaction(proposal_transaction_info.data@) is None {
        Err(ProgramError::BorshIoError)
    } else if value_of(parse_proposal_transaction(proposal_transaction_info.data@)).account_type
        != GovernanceAccountType::ProposalTransaction {
        Err(ProgramError::UninitializedAccount)
    } else {
        Ok(value_of(parse_proposal_transaction(proposal_transaction_info.data@)))
    }
}

/// An executable result agrees with a specified one.
pub open spec fn proposal_transaction_result(
    r: Result<ProposalTransaction, ProgramError>,
    expected: Result<ProposalTransactionView, ProgramError>,
) -> bool {
    match r {
        Ok(t) => expected == Ok::<ProposalTransactionView, ProgramError>(t@),
        Err(e) => expected == Err::<ProposalTransactionView, ProgramError>(e),
    }
}

/// Deserializes ProposalTransaction account and checks owner program
pub fn get_proposal_transaction_data(
    program_id: &Pubkey,
    proposal_transaction_info: &AccountInfo,
) -> (r: Result<ProposalTransaction, ProgramError>)
    ensures
        proposal_transaction_result(
            r,
            proposal_transaction_data(*program_id, proposal_transaction_info),
        ),
{
    assert_account_exists(program_id, proposal_transaction_info)?;
    match ProposalTransaction::deserialize(proposal_transaction_info.data.as_slice()) {
        Some(t) => {
            if !t.is_initialized() {
                Err(ProgramError::UninitializedAccount)
            } else {
                Ok(t)
            }
        },
        None => Err(ProgramError::BorshIoError),
    }
}

/// The transaction that the account holds, if it belongs to the proposal.
pub open spec fn proposal_transaction_data_for_proposal(
    program_id: Pubkey,
    proposal_transaction_info: &AccountInfo,
    proposal: Pubkey,
) -> Result<ProposalTransactionView, ProgramError> {
    match proposal_transaction_data(program_id, proposal_transaction_info) {
        Err(e) => Err(e),
        Ok(t) => if t.proposal != proposal {
            Err(ProgramError::Governance(GovernanceError::InvalidProposalForProposalTransaction))
        } else {
            Ok(t)
        },
    }
}

///  Deserializes and returns ProposalTransaction account and checks it belongs to the given Proposal
pub fn get_proposal_transaction_data_for_proposal(
    program_id: &Pubkey,
    proposal_transaction_info: &AccountInfo,
    proposal: &Pubkey,
) -> (r: Result<ProposalTransaction, ProgramError>)
    ensures
        proposal_transaction_result(
            r,
            proposal_transaction_data_for_proposal(
                *program_id,
                proposal_transaction_info,
                *proposal,
            ),
        ),
{
    let proposal_transaction_data = get_proposal_transaction_data(
        program_id,
        proposal_transaction_info,
    )?;
    if proposal_transaction_data.proposal != *proposal {
        return Err(
            ProgramError::Governance(GovernanceError::InvalidProposalForProposalTransaction),
        );
    }
    Ok(proposal_transaction_data)
}

// ---------------------------------------------------------------------------
// Queueing and executing
// ---------------------------------------------------------------------------

/// What queueing a transaction comes to. The account that is to hold it must
/// be the one derived for the proposal, the option and the index, and it must
/// hold nothing yet: an index is used once per option.
pub open spec fn insert_transaction_result(
    program_id: Pubkey,
    proposal: Pubkey,
    proposal_transaction_info: &AccountInfo,
    option_index: u8,
    transaction_index: u16,
    hold_up_time: u32,
    instructions: Seq<InstructionDataView>,
) -> Result<ProposalTransactionView, ProgramError> {
    if proposal_transaction_address(program_id, proposal, option_index, transaction_index) != Some(
        proposal_transaction_info.key,
    ) {
        Err(ProgramError::Governance(GovernanceError::InvalidProposalTransactionAccountAddress))
    } else if proposal_transaction_info.data@.len() != 0 {
        Err(ProgramError::Governance(GovernanceError::TransactionAlreadyExists))
    } else {
        Ok(
            ProposalTransactionView {
                account_type: GovernanceAccountType::ProposalTransaction,
                proposal,
                option_index,
                transaction_index,
                hold_up_time,
                instructions,
                executed_at: None,
                execution_status: TransactionExecutionStatus::Unexecuted,
                reserved_v2: array_of::<8>(Seq::new(8, |i: int| 0u8)),
            },
        )
    }
}

/// Queues a transaction for an option of a proposal.
pub fn insert_transaction(
    program_id: &Pubkey,
    proposal: &Pubkey,
    proposal_transaction_info: &AccountInfo,
    option_index: u8,
    transaction_index: u16,
    hold_up_time: u32,
    instructions: Vec<InstructionData>,
) -> (r: Result<ProposalTransaction, ProgramError>)
    ensures
        proposal_transaction_result(
            r,
            insert_transaction_result(
                *program_id,
                *proposal,
                proposal_transaction_info,
                option_index,
                transaction_index,
                hold_up_time,
                instructions_view(instructions@),
            ),
        ),
{
    match find_proposal_transaction_address(program_id, proposal, option_index, transaction_index) {
        Some(address) => {
            if address != proposal_transaction_info.key {
                return Err(
                    ProgramError::Governance(
                        GovernanceError::InvalidProposalTransactionAccountAddress,
                    ),
                );
            }
        },
        None => {
            return Err(
                ProgramError::Governance(GovernanceError::InvalidProposalTransactionAccountAddress),
            );
        },
    }
    if !proposal_transaction_info.data_is_empty() {
        return Err(ProgramError::Governance(GovernanceError::TransactionAlreadyExists));
    }
    let reserved_v2 = [0u8; 8];
    proof {
        let zeros = Seq::new(8, |i: int| 0u8);
        assert(reserved_v2@ =~= zeros);
        lemma_array_of::<8>(zeros);
    }
    Ok(
        ProposalTransaction {
            account_type: GovernanceAccountType::ProposalTransaction,
            proposal: *proposal,
            option_index,
            transaction_index,
            hold_up_time,
            instructions,
            executed_at: None,
            execution_status: TransactionExecutionStatus::Unexecuted,
            reserved_v2,
        },
    )
}

/// What the executor is to do next.
#[derive(Clone, Copy, Debug, PartialEq, Eq, Structural)]
pub enum ExecutionStep {
    /// Invoke the instruction with this index, signed by the governance, and
    /// report how it went.
    Invoke(usize),
    /// Nothing is left to do: the outcome is recorded.
    Finished,
}

/// Whether a transaction may be executed now.
pub open spec fn execution_check(t: ProposalTransactionView, voting_completed_at: i64, now: i64) -> Result<
    (),
    ProgramError,
> {
    if now < voting_completed_at + t.hold_up_time {
        Err(ProgramError::Governance(GovernanceError::CannotExecuteTransactionWithinHoldUpTime))
    } else if t.executed_at is Some {
        Err(ProgramError::Governance(GovernanceError::TransactionAlreadyExecuted))
    } else {
        Ok(())
    }
}

/// The transaction with its outcome recorded.
pub open spec fn executed(t: ProposalTransactionView, now: i64, status: TransactionExecutionStatus) -> ProposalTransactionView {
    ProposalTransactionView { executed_at: Some(now), execution_status: status, ..t }
}

/// What beginning the execution comes to: the first instruction is to be
/// invoked, or, where there is none, the transaction has succeeded.
pub open spec fn begin_execution_result(
    t: ProposalTransactionView,
    voting_completed_at: i64,
    now: i64,
) -> Result<(ProposalTransactionView, ExecutionStep), ProgramError> {
    match execution_check(t, voting_completed_at, now) {
        Err(e) => Err(e),
        Ok(_) => if t.instructions.len() == 0 {
            Ok((executed(t, now, TransactionExecutionStatus::Success), ExecutionStep::Finished))
        } else {
            Ok((t, ExecutionStep::Invoke(0)))
        },
    }
}

/// What the outcome of the instruction with index `index` leads to: after a
/// failure nothing more is invoked and the error is recorded; after the last
/// success the success is recorded; else the next instruction follows, in
/// the stored order.
pub open spec fn after_instruction_result(
    t: ProposalTransactionView,
    index: usize,
    succeeded: bool,
    now: i64,
) -> Result<(ProposalTransactionView, ExecutionStep), ProgramError> {
    if t.executed_at is Some {
        Err(ProgramError::Governance(GovernanceError::TransactionAlreadyExecuted))
    } else if index >= t.instructions.len() {
        Err(ProgramError::InvalidArgument)
    } else if !succeeded {
        Ok((executed(t, now, TransactionExecutionStatus::Error), ExecutionStep::Finished))
    } else if index + 1 == t.instructions.len() {
        Ok((executed(t, now, TransactionExecutionStatus::Success), ExecutionStep::Finished))
    } else {
        Ok((t, ExecutionStep::Invoke((index + 1) as usize)))
    }
}

impl ProposalTransaction {
    /// Checks that the hold-up time has passed since voting ended and that
    /// the transaction was not executed before.
    pub fn assert_can_execute(&self, voting_completed_at: i64, now: i64) -> (r: Result<
        (),
        ProgramError,
    >)
        ensures
            r == execution_check(self@, voting_completed_at, now),
    {
        if (now as i128) < (voting_completed_at as i128) + (self.hold_up_time as i128) {
            return Err(
                ProgramError::Governance(GovernanceError::CannotExecuteTransactionWithinHoldUpTime),
            );
        }
        if self.executed_at.is_some() {
            return Err(ProgramError::Governance(GovernanceError::TransactionAlreadyExecuted));
        }
        Ok(())
    }

    /// Begins the execution at time `now` of a transaction whose proposal
    /// completed voting at `voting_completed_at`. The transaction is left as
    /// it was where the execution is refused.
    pub fn begin_execution(&mut self, voting_completed_at: i64, now: i64) -> (r: Result<
        ExecutionStep,
        ProgramError,
    >)
        ensures
            match begin_execution_result(old(self)@, voting_completed_at, now) {
                Ok((t, step)) => r == Ok::<ExecutionStep, ProgramError>(step) && final(self)@ == t,
                Err(e) => r == Err::<ExecutionStep, ProgramError>(e) && *final(self) == *old(self),
            },
    {
        self.assert_can_execute(voting_completed_at, now)?;
        if self.instructions.len() == 0 {
            self.executed_at = Some(now);
            self.execution_status = TransactionExecutionStatus::Success;
            Ok(ExecutionStep::Finished)
        } else {
            Ok(ExecutionStep::Invoke(0))
        }
    }

    /// Takes in how the instruction with index `index` went, at time `now`,
    /// and says what is next.
    pub fn after_instruction(&mut self, index: usize, succeeded: bool, now: i64) -> (r: Result<
        ExecutionStep,
        ProgramError,
    >)
        ensures
            match after_instruction_result(old(self)@, index, succeeded, now) {
                Ok((t, step)) => r == Ok::<ExecutionStep, ProgramError>(step) && final(self)@ == t,
                Err(e) => r == Err::<ExecutionStep, ProgramError>(e) && *final(self) == *old(self),
            },
    {
        if self.executed_at.is_some() {
            return Err(ProgramError::Governance(GovernanceError::TransactionAlreadyExecuted));
        }
        if index >= self.instructions.len() {
            return Err(ProgramError::InvalidArgument);
        }
        if !succeeded {
            self.executed_at = Some(now);
            self.execution_status = TransactionExecutionStatus::Error;
            return Ok(ExecutionStep::Finished);
        }
        if index + 1 == self.instructions.len() {
            self.executed_at = Some(now);
            self.execution_status = TransactionExecutionStatus::Success;
            return Ok(ExecutionStep::Finished);
        }
        Ok(ExecutionStep::Invoke(index + 1))
    }
}

/// The time of execution is set exactly once: whatever recorded an outcome,
/// no execution begins and no outcome is taken in after it.
pub proof fn lemma_executed_once(
    t: ProposalTransactionView,
    voting_completed_at: i64,
    now: i64,
    later: i64,
    index: usize,
    succeeded: bool,
)
    requires
        t.executed_at is Some,
    ensures
        begin_execution_result(t, voting_completed_at, later) is Err,
        after_instruction_result(t, index, succeeded, later) == Err::<
            (ProposalTransactionView, ExecutionStep),
            ProgramError,
        >(ProgramError::Governance(GovernanceError::TransactionAlreadyExecuted)),
{
}

/// Nothing is invoked before the hold-up time has passed since voting ended.
pub proof fn lemma_hold_up_time_gates_execution(
    t: ProposalTransactionView,
    voting_completed_at: i64,
    now: i64,
)
    requires
        now < voting_completed_at + t.hold_up_time,
    ensures
        begin_execution_result(t, voting_completed_at, now) == Err::<
            (ProposalTransactionView, ExecutionStep),
            ProgramError,
        >(ProgramError::Governance(GovernanceError::CannotExecuteTransactionWithinHoldUpTime)),
{
}

// ---------------------------------------------------------------------------
// Reading undoes writing
// ---------------------------------------------------------------------------

proof fn lemma_account_meta_wire(m: AccountMetaData)
    ensures
        wire_account_meta(m).len() == 34,
        wire_account_meta(m).subrange(0, 32) == m.pubkey@,
        wire_account_meta(m)[32] == (if m.is_signer { 1u8 } else { 0u8 }),
        wire_account_meta(m)[33] == (if m.is_writable { 1u8 } else { 0u8 }),
{
    broadcast use vstd::array::group_array_axioms;

    assert(wire_account_meta(m).subrange(0, 32) =~= m.pubkey@);
}

#[verifier::rlimit(50)]
proof fn lemma_account_metas_wire(v: Seq<AccountMetaData>)
    ensures
        wire_account_metas(v).len() == 34 * v.len(),
        forall|i: int|
            0 <= i < v.len() ==> #[trigger] wire_account_metas(v).subrange(34 * i, 34 * i + 34)
                == wire_account_meta(v[i]),
    decreases v.len(),
{
    if v.len() > 0 {
        let front = v.drop_last();
        lemma_account_metas_wire(front);
        lemma_account_meta_wire(v.last());
        let w = wire_account_metas(v);
        assert forall|i: int| 0 <= i < v.len() implies #[trigger] w.subrange(34 * i, 34 * i + 34)
            == wire_account_meta(v[i]) by {
            if i < front.len() {
                assert(w.subrange(34 * i, 34 * i + 34) =~= wire_account_metas(front).subrange(
                    34 * i,
                    34 * i + 34,
                ));
                assert(front[i] == v[i]);
            } else {
                assert(w.subrange(34 * i, 34 * i + 34) =~= wire_account_meta(v.last()));
            }
        }
    }
}

#[verifier::rlimit(50)]
proof fn lemma_account_metas_round_trip(v: Seq<AccountMetaData>, rest: Seq<u8>)
    ensures
        parse_account_metas(wire_account_metas(v) + rest, v.len()) == Some((v, rest)),
        wire_account_metas(v).len() == 34 * v.len(),
{
    lemma_account_metas_wire(v);
    let w = wire_account_metas(v);
    let s = w + rest;
    let read = Seq::new(v.len(), |i: int| account_meta_at(s, i));
    assert forall|i: int| 0 <= i < v.len() implies #[trigger] account_meta_valid_at(s, i)
        && read[i] == v[i] by {
        let one = w.subrange(34 * i, 34 * i + 34);
        lemma_account_meta_wire(v[i]);
        assert(one == wire_account_meta(v[i]));
        assert(s.subrange(34 * i, 34 * i + 32) =~= one.subrange(0, 32));
        assert(s[34 * i + 32] == one[32]);
        assert(s[34 * i + 33] == one[33]);
        lemma_array_of::<32>(v[i].pubkey@);
        assert(account_meta_at(s, i) == v[i]);
    }
    assert forall|i: int| 0 <= i < v.len() implies read[i] == v[i] by {
        assert(account_meta_valid_at(s, i));
    }
    assert(read =~= v);
    assert(s.skip(34 * v.len() as int) =~= rest);
}

/// An instruction that fits is read back from the bytes it is written as.
#[verifier::rlimit(50)]
pub proof fn lemma_instruction_round_trip(i: InstructionDataView, rest: Seq<u8>)
    requires
        instruction_fits(i),
    ensures
        parse_instruction(wire_instruction(i) + rest) == Some((i, rest)),
        wire_instruction(i).len() == instruction_size(i),
{
    let t3 = wire_bytes(i.data) + rest;
    let t2 = wire_account_metas(i.accounts) + t3;
    let t1 = wire_u32(i.accounts.len() as u32) + t2;
    crate::wire::lemma_pubkey_round_trip(i.program_id, t1);
    crate::wire::lemma_u32_round_trip(i.accounts.len() as u32, t2);
    lemma_account_metas_round_trip(i.accounts, t3);
    crate::wire::lemma_bytes_round_trip(i.data, rest);
    crate::wire::lemma_concat_assoc(
        wire_pubkey(i.program_id),
        wire_u32(i.accounts.len() as u32),
        t2,
    );
    crate::wire::lemma_concat_assoc(
        wire_pubkey(i.program_id) + wire_u32(i.accounts.len() as u32),
        wire_account_metas(i.accounts),
        t3,
    );
    crate::wire::lemma_concat_assoc(
        wire_pubkey(i.program_id) + wire_u32(i.accounts.len() as u32) + wire_account_metas(
            i.accounts,
        ),
        wire_bytes(i.data),
        rest,
    );
}

proof fn lemma_wire_instructions_front(v: Seq<InstructionDataView>)
    requires
        v.len() > 0,
    ensures
        wire_instructions(v) == wire_instruction(v[0]) + wire_instructions(v.skip(1)),
    decreases v.len(),
{
    if v.len() == 1 {
        assert(v.drop_last() =~= Seq::<InstructionDataView>::empty());
        assert(v.skip(1) =~= Seq::<InstructionDataView>::empty());
        assert(wire_instructions(v) =~= wire_instruction(v[0]) + wire_instructions(v.skip(1)));
    } else {
        let front = v.drop_last();
        lemma_wire_instructions_front(front);
        assert(front.skip(1) =~= v.skip(1).drop_last());
        assert(v.skip(1).last() == v.last());
        crate::wire::lemma_concat_assoc(
            wire_instruction(v[0]),
            wire_instructions(front.skip(1)),
            wire_instruction(v.last()),
        );
    }
}

proof fn lemma_instruction_wire_len(i: InstructionDataView)
    ensures
        wire_instruction(i).len() == instruction_size(i),
{
    let empty = Seq::<u8>::empty();
    crate::wire::lemma_pubkey_round_trip(i.program_id, empty);
    crate::wire::lemma_u32_round_trip(i.accounts.len() as u32, empty);
    crate::wire::lemma_u32_round_trip(i.data.len() as u32, empty);
    lemma_account_metas_wire(i.accounts);
}

proof fn lemma_instructions_wire_len(v: Seq<InstructionDataView>)
    ensures
        wire_instructions(v).len() == instructions_size(v),
    decreases v.len(),
{
    if v.len() > 0 {
        lemma_instructions_wire_len(v.drop_last());
        lemma_instruction_wire_len(v.last());
    }
}

/// Instructions that fit are read back from the bytes they are written as.
pub proof fn lemma_instructions_round_trip(v: Seq<InstructionDataView>, rest: Seq<u8>)
    requires
        all_instructions_fit(v),
    ensures
        parse_instructions(wire_instructions(v) + rest, v.len()) == Some((v, rest)),
    decreases v.len(),
{
    if v.len() == 0 {
        assert(wire_instructions(v) + rest =~= rest);
        assert(v =~= Seq::<InstructionDataView>::empty());
    } else {
        let others = v.skip(1);
        assert(all_instructions_fit(others)) by {
            assert forall|i: int| 0 <= i < others.len() implies instruction_fits(
                #[trigger] others[i],
            ) by {
                assert(others[i] == v[i + 1]);
            }
        }
        lemma_wire_instructions_front(v);
        let tail = wire_instructions(others) + rest;
        crate::wire::lemma_concat_assoc(wire_instruction(v[0]), wire_instructions(others), rest);
        lemma_instruction_round_trip(v[0], tail);
        lemma_instructions_round_trip(others, rest);
        assert(seq![v[0]] + others =~= v);
    }
}

/// A transaction that fits is read back from the bytes it is written as,
/// whatever follows them: what `serialize` writes, `deserialize` reads.
#[verifier::rlimit(50)]
pub proof fn lemma_proposal_transaction_round_trip(t: ProposalTransactionView, rest: Seq<u8>)
    requires
        transaction_fits(t),
    ensures
        parse_proposal_transaction(wire_proposal_transaction(t) + rest) == Some((t, rest)),
{
    let w0 = wire_account_type(t.account_type);
    let w1 = wire_pubkey(t.proposal);
    let w2 = wire_u8(t.option_index);
    let w3 = wire_u16(t.transaction_index);
    let w4 = wire_u32(t.hold_up_time);
    let w5 = wire_u32(t.instructions.len() as u32);
    let w6 = wire_instructions(t.instructions);
    let w7 = wire_option_i64(t.executed_at);
    let w8 = wire_execution_status(t.execution_status);
    let w9 = t.reserved_v2@;
    let t9 = w9 + rest;
    let t8 = w8 + t9;
    let t7 = w7 + t8;
    let t6 = w6 + t7;
    let t5 = w5 + t6;
    let t4 = w4 + t5;
    let t3 = w3 + t4;
    let t2 = w2 + t3;
    let t1 = w1 + t2;
    crate::enums::lemma_account_type_round_trip(t.account_type, t1);
    crate::wire::lemma_pubkey_round_trip(t.proposal, t2);
    crate::wire::lemma_u8_round_trip(t.option_index, t3);
    crate::wire::lemma_u16_round_trip(t.transaction_index, t4);
    crate::wire::lemma_u32_round_trip(t.hold_up_time, t5);
    crate::wire::lemma_u32_round_trip(t.instructions.len() as u32, t6);
    lemma_instructions_round_trip(t.instructions, t7);
    crate::wire::lemma_option_i64_round_trip(t.executed_at, t8);
    crate::enums::lemma_execution_status_round_trip(t.execution_status, t9);
    crate::wire::lemma_array_round_trip::<8>(t.reserved_v2, rest);
    crate::wire::lemma_concat_assoc(w0, w1, t2);
    crate::wire::lemma_concat_assoc(w0 + w1, w2, t3);
    crate::wire::lemma_concat_assoc(w0 + w1 + w2, w3, t4);
    crate::wire::lemma_concat_assoc(w0 + w1 + w2 + w3, w4, t5);
    crate::wire::lemma_concat_assoc(w0 + w1 + w2 + w3 + w4, w5, t6);
    crate::wire::lemma_concat_assoc(w0 + w1 + w2 + w3 + w4 + w5, w6, t7);
    crate::wire::lemma_concat_assoc(w0 + w1 + w2 + w3 + w4 + w5 + w6, w7, t8);
    crate::wire::lemma_concat_assoc(w0 + w1 + w2 + w3 + w4 + w5 + w6 + w7, w8, t9);
    crate::wire::lemma_concat_assoc(w0 + w1 + w2 + w3 + w4 + w5 + w6 + w7 + w8, w9, rest);
}

/// The account of a transaction is large enough for it: what is written of a
/// transaction is never longer than its instructions and 62 bytes, and
/// exactly as long once the transaction was executed.
pub proof fn lemma_proposal_transaction_max_size(t: ProposalTransactionView)
    ensures
        wire_proposal_transaction(t).len() <= instructions_size(t.instructions)
            + PROPOSAL_TRANSACTION_FIXED_SIZE,
        t.executed_at is Some ==> wire_proposal_transaction(t).len() == instructions_size(
            t.instructions,
        ) + PROPOSAL_TRANSACTION_FIXED_SIZE,
{
    let empty = Seq::<u8>::empty();
    lemma_instructions_wire_len(t.instructions);
    crate::wire::lemma_pubkey_round_trip(t.proposal, empty);
    crate::wire::lemma_u16_round_trip(t.transaction_index, empty);
    crate::wire::lemma_u32_round_trip(t.hold_up_time, empty);
    crate::wire::lemma_u32_round_trip(t.instructions.len() as u32, empty);
    crate::wire::lemma_option_i64_round_trip(t.executed_at, empty);
    crate::enums::lemma_execution_status_round_trip(t.execution_status, empty);
    crate::wire::lemma_array_round_trip::<8>(t.reserved_v2, empty);
}

} // verus!
