//! The identity record that the verification program keeps of a subject.

use vstd::prelude::*;

use crate::pubkey::Pubkey;
use crate::wire::{
    parse_array, parse_pubkey, parse_u8, read_array, read_pubkey, read_u8, reads, rest_of,
    value_of, write_pubkey, write_slice, write_u8, Parsed,
};

verus! {

/// Status of a check that has not begun.
pub const STATUS_INITIAL: u8 = 0;

/// Status of a check that is under way.
pub const STATUS_STARTED: u8 = 1;

/// Status of a check that was passed.
pub const STATUS_APPROVED: u8 = 2;

/// Status of a check that was failed.
pub const STATUS_REJECTED: u8 = 3;

/// Number of bytes of an identity record.
pub const IDENTITY_LEN: usize = 44;

/// What the governance program reads of an identity record. It never writes
/// one.
#[derive(Clone, Copy, Debug, PartialEq, Eq)]
pub struct Identity {
    /// The verification program's mark on its records.
    pub discriminator: [u8; 8],
    /// Bump seed of the record's address.
    pub bump: u8,
    /// Accreditation status.
    pub ia_status: u8,
    /// Anti-money-laundering status.
    pub aml_status: u8,
    /// Know-your-customer status.
    pub kyc_status: u8,
    /// Who may update the record.
    pub authority: Pubkey,
}

impl Identity {
    /// A subject is verified when all three checks were passed.
    pub open spec fn verified(self) -> bool {
        self.aml_status == STATUS_APPROVED && self.kyc_status == STATUS_APPROVED && self.ia_status
            == STATUS_APPROVED
    }

    pub fn is_verified(&self) -> (r: bool)
        ensures
            r == self.verified(),
    {
        self.aml_status == STATUS_APPROVED && self.kyc_status == STATUS_APPROVED && self.ia_status
            == STATUS_APPROVED
    }

    /// The bytes of the record.
    pub open spec fn wire(self) -> Seq<u8> {
        self.discriminator@ + seq![self.bump, self.ia_status, self.aml_status, self.kyc_status]
            + self.authority@
    }

    /// The record at the front of `s`.
    pub open spec fn parse(s: Seq<u8>) -> Parsed<Identity> {
        let discriminator = parse_array::<8>(s);
        let bump = parse_u8(rest_of(discriminator));
        let ia_status = parse_u8(rest_of(bump));
        let aml_status = parse_u8(rest_of(ia_status));
        let kyc_status = parse_u8(rest_of(aml_status));
        let authority = parse_pubkey(rest_of(kyc_status));
        if discriminator is Some && bump is Some && ia_status is Some && aml_status is Some
            && kyc_status is Some && authority is Some {
            Some(
                (
                    Identity {
                        discriminator: value_of(discriminator),
                        bump: value_of(bump),
                        ia_status: value_of(ia_status),
                        aml_status: value_of(aml_status),
                        kyc_status: value_of(kyc_status),
                        authority: value_of(authority),
                    },
                    rest_of(authority),
                ),
            )
        } else {
            None
        }
    }

    /// Reads the record at the front of `data`; what follows it is ignored.
    pub fn deserialize(data: &[u8]) -> (r: Option<Identity>)
        ensures
            r == match Identity::parse(data@) {
                Some((v, _)) => Some(v),
                None => None,
            },
            r is Some <==> data@.len() >= IDENTITY_LEN,
    {
        assert(data@.skip(0) =~= data@);
        let (discriminator, pos) = read_array::<8>(data, 0)?;
        let (bump, pos) = read_u8(data, pos)?;
        let (ia_status, pos) = read_u8(data, pos)?;
        let (aml_status, pos) = read_u8(data, pos)?;
        let (kyc_status, pos) = read_u8(data, pos)?;
        let (authority, _) = read_pubkey(data, pos)?;
        Some(Identity { discriminator, bump, ia_status, aml_status, kyc_status, authority })
    }

    /// Writes the record.
    pub fn serialize(&self) -> (r: Vec<u8>)
        ensures
            r@ == self.wire(),
            r@.len() == IDENTITY_LEN,
    {
        let mut buf: Vec<u8> = Vec::new();
        write_slice(&mut buf, self.discriminator.as_slice());
        write_u8(&mut buf, self.bump);
        write_u8(&mut buf, self.ia_status);
        write_u8(&mut buf, self.aml_status);
        write_u8(&mut buf, self.kyc_status);
        write_pubkey(&mut buf, &self.authority);
        assert(buf@ =~= self.wire());
        buf
    }
}

/// An identity record is read back from the bytes it is written as,
/// whatever follows them.
#[verifier::rlimit(50)]
pub proof fn lemma_identity_round_trip(v: Identity, rest: Seq<u8>)
    ensures
        Identity::parse(v.wire() + rest) == Some((v, rest)),
        v.wire().len() == IDENTITY_LEN,
{
    let t5 = v.authority@ + rest;
    let t4 = seq![v.kyc_status] + t5;
    let t3 = seq![v.aml_status] + t4;
    let t2 = seq![v.ia_status] + t3;
    let t1 = seq![v.bump] + t2;
    crate::wire::lemma_array_round_trip::<8>(v.discriminator, t1);
    crate::wire::lemma_u8_round_trip(v.bump, t2);
    crate::wire::lemma_u8_round_trip(v.ia_status, t3);
    crate::wire::lemma_u8_round_trip(v.aml_status, t4);
    crate::wire::lemma_u8_round_trip(v.kyc_status, t5);
    crate::wire::lemma_pubkey_round_trip(v.authority, rest);
    let statuses = seq![v.bump, v.ia_status, v.aml_status, v.kyc_status];
    assert(statuses + t5 =~= t1);
    crate::wire::lemma_concat_assoc(v.discriminator@, statuses, t5);
    crate::wire::lemma_concat_assoc(v.discriminator@ + statuses, v.authority@, rest);
}

} // verus!
