//! Account addresses and the derivation of program addresses from seeds.
//!
//! Every record of the ledger lives at an address that is derived from a tag
//! and the keys that identify the record. The derivation itself (a hash and a
//! curve test) is done by the Solana SDK; this module gives it a name in
//! contracts and states what the rest of the library relies on.

use vstd::prelude::*;
use vstd::std_specs::cmp::PartialEqSpecImpl;

verus! {

/// Number of bytes in an address.
pub const PUBKEY_BYTES: usize = 32;

/// Longest seed that a derivation accepts, in bytes.
pub const MAX_SEED_LEN: usize = 32;

/// A derivation accepts fewer seeds than this: the bump seed takes one place.
pub const MAX_SEEDS: usize = 16;

/// Tag of most derived addresses of the ledger: the bytes of `governance`.
pub const PROGRAM_AUTHORITY_SEED: [u8; 10] = [103, 111, 118, 101, 114, 110, 97, 110, 99, 101];

/// Address of the system program, which owns the accounts that no program
/// has taken yet.
pub const SYSTEM_PROGRAM_ID: [u8; 32] = [
    0, 0, 0, 0, 0, 0, 0, 0, 0, 0, 0, 0, 0, 0, 0, 0, 0, 0, 0, 0, 0, 0, 0, 0, 0, 0, 0, 0, 0, 0, 0, 0,
];

/// A 32-byte account address.
#[derive(Clone, Copy, Debug, Eq, Hash)]
pub struct Pubkey {
    pub bytes: [u8; 32],
}

impl View for Pubkey {
    type V = Seq<u8>;

    open spec fn view(&self) -> Seq<u8> {
        self.bytes@
    }
}

impl PartialEq for Pubkey {
    fn eq(&self, other: &Pubkey) -> (r: bool) {
        let mut i: usize = 0;
        while i < 32
            invariant
                i <= 32,
                forall|j: int| 0 <= j < i ==> self.bytes@[j] == other.bytes@[j],
            decreases 32 - i,
        {
            if self.bytes[i] != other.bytes[i] {
                return false;
            }
            i += 1;
        }
        assert(self.bytes =~= other.bytes);
        true
    }
}

impl PartialEqSpecImpl for Pubkey {
    open spec fn obeys_eq_spec() -> bool {
        true
    }

    open spec fn eq_spec(&self, other: &Pubkey) -> bool {
        *self == *other
    }
}

/// The address and bump seed that the SDK finds for `seeds` under
/// `program_id`, or `None` where it finds none.
pub uninterp spec fn program_address(seeds: Seq<Seq<u8>>, program_id: Seq<u8>) -> Option<
    ([u8; 32], u8),
>;

/// The seeds as sequences of bytes.
pub open spec fn seeds_view(seeds: &[&[u8]]) -> Seq<Seq<u8>> {
    Seq::new(seeds@.len(), |i: int| seeds@[i]@)
}

/// The seeds of an array as sequences of bytes.
pub open spec fn seeds_of<const N: usize>(seeds: [&[u8]; N]) -> Seq<Seq<u8>> {
    Seq::new(N as nat, |i: int| seeds@[i]@)
}

/// Whether the SDK refuses the seeds for their number or length alone.
pub open spec fn seeds_too_long(seeds: Seq<Seq<u8>>) -> bool {
    seeds.len() >= MAX_SEEDS || exists|i: int|
        0 <= i < seeds.len() && (#[trigger] seeds[i]).len() > MAX_SEED_LEN
}

/// The address derived from a tag and keys under a program, and its bump seed.
pub open spec fn derive_address(seeds: Seq<Seq<u8>>, program_id: Pubkey) -> Option<(Pubkey, u8)> {
    match program_address(seeds, program_id@) {
        Some((bytes, bump)) => Some((Pubkey { bytes }, bump)),
        None => None,
    }
}

/// Calls `solana_program::pubkey::Pubkey::try_find_program_address`.
///
/// Trusted: the result is the named derivation of the seeds and the program
/// id, and there is none where there are 16 seeds or more or a seed is longer
/// than 32 bytes. The search itself (SHA-256 over the seeds, a bump seed
/// counted down from 255, the test that the hash is off the curve) is not
/// restated here.
#[verifier::external_body]
fn sdk_try_find_program_address(seeds: &[&[u8]], program_id: &[u8; 32]) -> (r: Option<
    ([u8; 32], u8),
>)
    ensures
        r == program_address(seeds_view(seeds), program_id@),
        seeds_too_long(seeds_view(seeds)) ==> r is None,
{
    let id = solana_program::pubkey::Pubkey::new_from_array(*program_id);
    match solana_program::pubkey::Pubkey::try_find_program_address(seeds, &id) {
        Some((address, bump)) => Some((address.to_bytes(), bump)),
        None => None,
    }
}

impl Pubkey {
    pub fn new_from_array(bytes: [u8; 32]) -> (r: Pubkey)
        ensures
            r.bytes == bytes,
    {
        Pubkey { bytes }
    }

    pub fn to_bytes(&self) -> (r: [u8; 32])
        ensures
            r == self.bytes,
    {
        self.bytes
    }

    pub fn as_ref(&self) -> (r: &[u8])
        ensures
            r@ == self@,
            r@.len() == 32,
    {
        self.bytes.as_slice()
    }

    /// Finds the address derived from `seeds` under `program_id`, with its
    /// bump seed, where there is one.
    pub fn try_find_program_address(seeds: &[&[u8]], program_id: &Pubkey) -> (r: Option<
        (Pubkey, u8),
    >)
        ensures
            r == derive_address(seeds_view(seeds), *program_id),
            seeds_too_long(seeds_view(seeds)) ==> r is None,
    {
        match sdk_try_find_program_address(seeds, &program_id.bytes) {
            Some((bytes, bump)) => Some((Pubkey { bytes }, bump)),
            None => None,
        }
    }

    /// The address derived from `seeds` under `program_id`, with its bump
    /// seed, for seeds that have one.
    pub fn find_program_address(seeds: &[&[u8]], program_id: &Pubkey) -> (r: (Pubkey, u8))
        requires
            derive_address(seeds_view(seeds), *program_id) is Some,
        ensures
            Some(r) == derive_address(seeds_view(seeds), *program_id),
    {
        let (bytes, bump) = sdk_try_find_program_address(seeds, &program_id.bytes).unwrap();
        (Pubkey { bytes }, bump)
    }

    /// Finds the address derived from an array of seeds.
    pub fn try_find_address<const N: usize>(seeds: &[&[u8]; N], program_id: &Pubkey) -> (r: Option<
        (Pubkey, u8),
    >)
        ensures
            r == derive_address(seeds_of(*seeds), *program_id),
            seeds_too_long(seeds_of(*seeds)) ==> r is None,
    {
        let slice = seeds.as_slice();
        assert(seeds_view(slice) =~= seeds_of(*seeds));
        Pubkey::try_find_program_address(slice, program_id)
    }

    /// The address derived from an array of seeds, with its bump seed, for
    /// seeds that have one.
    pub fn find_address<const N: usize>(seeds: &[&[u8]; N], program_id: &Pubkey) -> (r: (
        Pubkey,
        u8,
    ))
        requires
            derive_address(seeds_of(*seeds), *program_id) is Some,
        ensures
            Some(r) == derive_address(seeds_of(*seeds), *program_id),
    {
        let slice = seeds.as_slice();
        assert(seeds_view(slice) =~= seeds_of(*seeds));
        Pubkey::find_program_address(slice, program_id)
    }

    /// Two addresses with the same bytes are the same address.
    pub proof fn lemma_view_injective(a: Pubkey, b: Pubkey)
        requires
            a@ == b@,
        ensures
            a == b,
    {
        assert(a.bytes =~= b.bytes);
    }
}

/// Derivation is a function of the seeds and the program: whatever two
/// searches over the same seeds under the same program come back with, they
/// come back with the same address and the same bump seed.
pub proof fn lemma_derivation_deterministic(
    seeds_a: Seq<Seq<u8>>,
    program_a: Pubkey,
    found_a: Option<(Pubkey, u8)>,
    seeds_b: Seq<Seq<u8>>,
    program_b: Pubkey,
    found_b: Option<(Pubkey, u8)>,
)
    requires
        seeds_a == seeds_b,
        program_a@ == program_b@,
        found_a == derive_address(seeds_a, program_a),
        found_b == derive_address(seeds_b, program_b),
    ensures
        found_a == found_b,
{
    Pubkey::lemma_view_injective(program_a, program_b);
}

} // verus!
