//! The persisted layout of records: fixed-width little-endian integers without
//! padding, a presence byte before an optional value, a four-byte length
//! before a variable-length field.
//!
//! Each piece of the layout has a statement of the bytes that a value is
//! written as (`wire_*`), a statement of how a value is read off the front
//! of a byte string (`parse_*`), and the executable functions that meet them.
//! A read leaves what follows the value untouched, and a record is read off
//! the front of an account's data whatever comes after it.

use vstd::bytes::*;
use vstd::prelude::*;
use vstd::slice::*;
use vstd::string::StringSliceAdditionalSpecFns;
use vstd::utf8::{
    decode_utf8, encode_utf8, encode_utf8_decode_utf8, valid_utf8,
};

use crate::pubkey::Pubkey;

verus! {

/// What a read hands back: the value, and the bytes that follow it.
pub type Parsed<T> = Option<(T, Seq<u8>)>;

/// The value of a read that succeeded.
pub open spec fn value_of<T>(p: Parsed<T>) -> T {
    (p->0).0
}

/// What is left after a read that succeeded.
pub open spec fn rest_of<T>(p: Parsed<T>) -> Seq<u8> {
    (p->0).1
}

/// An executable read at `pos` of `data` agrees with the specified read of
/// what `data` holds from `pos` on.
pub open spec fn reads<T>(r: Option<(T, usize)>, data: Seq<u8>, pos: usize, p: Parsed<T>) -> bool {
    match r {
        Some((v, next)) => p is Some && value_of(p) == v && pos <= next <= data.len()
            && data.skip(next as int) == rest_of(p) && rest_of(p).len() == data.len() - next,
        None => p is None,
    }
}

/// The array of `N` bytes that holds `s`.
pub open spec fn array_of<const N: usize>(s: Seq<u8>) -> [u8; N] {
    choose|a: [u8; N]| a@ == s
}

spec fn array_upto<const N: usize>(s: Seq<u8>, k: nat) -> [u8; N]
    decreases k,
{
    if k == 0 {
        vstd::array::spec_array_fill_for_copy_type::<u8, N>(0u8)
    } else {
        vstd::array::spec_array_update(array_upto::<N>(s, (k - 1) as nat), k - 1, s[k - 1])
    }
}

proof fn lemma_array_upto<const N: usize>(s: Seq<u8>, k: nat)
    requires
        s.len() == N,
        k <= N,
    ensures
        forall|i: int| 0 <= i < k ==> array_upto::<N>(s, k)@[i] == s[i],
    decreases k,
{
    broadcast use vstd::array::group_array_axioms;

    if k > 0 {
        lemma_array_upto::<N>(s, (k - 1) as nat);
    }
}

/// Every string of `N` bytes is held by exactly one array.
pub proof fn lemma_array_of<const N: usize>(s: Seq<u8>)
    requires
        s.len() == N,
    ensures
        array_of::<N>(s)@ == s,
        forall|a: [u8; N]| a@ == s ==> a == array_of::<N>(s),
{
    broadcast use vstd::array::group_array_axioms;

    lemma_array_upto::<N>(s, N as nat);
    let w = array_upto::<N>(s, N as nat);
    assert(w@ =~= s);
    assert forall|a: [u8; N]| a@ == s implies a == array_of::<N>(s) by {
        assert(a =~= array_of::<N>(s));
    }
}

/// Whether two arrays hold the same bytes.
pub(crate) fn same_bytes<const N: usize>(a: &[u8; N], b: &[u8; N]) -> (r: bool)
    ensures
        r == (*a == *b),
{
    let mut i: usize = 0;
    while i < N
        invariant
            i <= N,
            forall|j: int| 0 <= j < i ==> a@[j] == b@[j],
        decreases N - i,
    {
        if a[i] != b[i] {
            return false;
        }
        i += 1;
    }
    assert(*a =~= *b);
    true
}

// ---------------------------------------------------------------------------
// What a value is written as
// ---------------------------------------------------------------------------

pub open spec fn wire_u8(v: u8) -> Seq<u8> {
    seq![v]
}

pub open spec fn wire_bool(v: bool) -> Seq<u8> {
    seq![if v { 1u8 } else { 0u8 }]
}

pub open spec fn wire_u16(v: u16) -> Seq<u8> {
    spec_u16_to_le_bytes(v)
}

pub open spec fn wire_u32(v: u32) -> Seq<u8> {
    spec_u32_to_le_bytes(v)
}

pub open spec fn wire_u64(v: u64) -> Seq<u8> {
    spec_u64_to_le_bytes(v)
}

/// A signed 64-bit integer is written as its two's complement.
pub open spec fn wire_i64(v: i64) -> Seq<u8> {
    spec_u64_to_le_bytes(v as u64)
}

pub open spec fn wire_pubkey(v: Pubkey) -> Seq<u8> {
    v@
}

pub open spec fn wire_option_pubkey(v: Option<Pubkey>) -> Seq<u8> {
    match v {
        Some(key) => seq![1u8] + key@,
        None => seq![0u8],
    }
}

pub open spec fn wire_option_i64(v: Option<i64>) -> Seq<u8> {
    match v {
        Some(t) => seq![1u8] + wire_i64(t),
        None => seq![0u8],
    }
}

/// A string of bytes behind its length.
pub open spec fn wire_bytes(v: Seq<u8>) -> Seq<u8> {
    wire_u32(v.len() as u32) + v
}

/// A text is written as its UTF-8 bytes behind their number.
pub open spec fn wire_string(v: Seq<char>) -> Seq<u8> {
    wire_bytes(encode_utf8(v))
}

// ---------------------------------------------------------------------------
// How a value is read
// ---------------------------------------------------------------------------

pub open spec fn parse_u8(s: Seq<u8>) -> Parsed<u8> {
    if s.len() >= 1 {
        Some((s[0], s.skip(1)))
    } else {
        None
    }
}

/// Only 0 and 1 are booleans.
pub open spec fn parse_bool(s: Seq<u8>) -> Parsed<bool> {
    if s.len() >= 1 && s[0] <= 1 {
        Some((s[0] == 1, s.skip(1)))
    } else {
        None
    }
}

pub open spec fn parse_u16(s: Seq<u8>) -> Parsed<u16> {
    if s.len() >= 2 {
        Some((spec_u16_from_le_bytes(s.take(2)), s.skip(2)))
    } else {
        None
    }
}

pub open spec fn parse_u32(s: Seq<u8>) -> Parsed<u32> {
    if s.len() >= 4 {
        Some((spec_u32_from_le_bytes(s.take(4)), s.skip(4)))
    } else {
        None
    }
}

pub open spec fn parse_u64(s: Seq<u8>) -> Parsed<u64> {
    if s.len() >= 8 {
        Some((spec_u64_from_le_bytes(s.take(8)), s.skip(8)))
    } else {
        None
    }
}

pub open spec fn parse_i64(s: Seq<u8>) -> Parsed<i64> {
    if s.len() >= 8 {
        Some((spec_u64_from_le_bytes(s.take(8)) as i64, s.skip(8)))
    } else {
        None
    }
}

pub open spec fn parse_array<const N: usize>(s: Seq<u8>) -> Parsed<[u8; N]> {
    if s.len() >= N {
        Some((array_of::<N>(s.take(N as int)), s.skip(N as int)))
    } else {
        None
    }
}

pub open spec fn parse_pubkey(s: Seq<u8>) -> Parsed<Pubkey> {
    if s.len() >= 32 {
        Some((Pubkey { bytes: array_of::<32>(s.take(32)) }, s.skip(32)))
    } else {
        None
    }
}

/// The presence byte is 0 or 1, and a key follows a 1.
pub open spec fn parse_option_pubkey(s: Seq<u8>) -> Parsed<Option<Pubkey>> {
    if s.len() >= 1 && s[0] == 0 {
        Some((None, s.skip(1)))
    } else if s.len() >= 33 && s[0] == 1 {
        Some((Some(Pubkey { bytes: array_of::<32>(s.subrange(1, 33)) }), s.skip(33)))
    } else {
        None
    }
}

pub open spec fn parse_option_i64(s: Seq<u8>) -> Parsed<Option<i64>> {
    if s.len() >= 1 && s[0] == 0 {
        Some((None, s.skip(1)))
    } else if s.len() >= 9 && s[0] == 1 {
        Some((Some(spec_u64_from_le_bytes(s.subrange(1, 9)) as i64), s.skip(9)))
    } else {
        None
    }
}

/// A length and then as many bytes.
pub open spec fn parse_bytes(s: Seq<u8>) -> Parsed<Seq<u8>> {
    let len = parse_u32(s);
    if len is Some && rest_of(len).len() >= value_of(len) {
        Some((rest_of(len).take(value_of(len) as int), rest_of(len).skip(value_of(len) as int)))
    } else {
        None
    }
}

/// A length, as many bytes, and the bytes are UTF-8.
pub open spec fn parse_string(s: Seq<u8>) -> Parsed<Seq<char>> {
    let bytes = parse_bytes(s);
    if bytes is Some && valid_utf8(value_of(bytes)) {
        Some((decode_utf8(value_of(bytes)), rest_of(bytes)))
    } else {
        None
    }
}

// ---------------------------------------------------------------------------
// Reading
// ---------------------------------------------------------------------------

/// Calls `String::from_utf8`.
///
/// Trusted: it succeeds exactly on bytes that are UTF-8, and the text it
/// returns is made of those bytes.
#[verifier::external_body]
fn string_from_utf8(bytes: Vec<u8>) -> (r: Option<String>)
    ensures
        r is Some <==> valid_utf8(bytes@),
        r is Some ==> encode_utf8(r->0@) == bytes@,
{
    match String::from_utf8(bytes) {
        Ok(text) => Some(text),
        Err(_) => None,
    }
}

pub(crate) fn read_string(data: &[u8], pos: usize) -> (r: Option<(String, usize)>)
    requires
        pos <= data@.len(),
    ensures
        match r {
            Some((v, next)) => reads(
                Some((v@, next)),
                data@,
                pos,
                parse_string(data@.skip(pos as int)),
            ),
            None => parse_string(data@.skip(pos as int)) is None,
        },
{
    let (bytes, next) = read_bytes(data, pos)?;
    let ghost raw = bytes@;
    let text = string_from_utf8(bytes)?;
    proof {
        encode_utf8_decode_utf8(text@);
    }
    Some((text, next))
}

pub(crate) fn read_u8(data: &[u8], pos: usize) -> (r: Option<(u8, usize)>)
    requires
        pos <= data@.len(),
    ensures
        reads(r, data@, pos, parse_u8(data@.skip(pos as int))),
{
    if pos < data.len() {
        assert(data@.skip(pos as int).skip(1) =~= data@.skip(pos + 1));
        Some((data[pos], pos + 1))
    } else {
        None
    }
}

pub(crate) fn read_bool(data: &[u8], pos: usize) -> (r: Option<(bool, usize)>)
    requires
        pos <= data@.len(),
    ensures
        reads(r, data@, pos, parse_bool(data@.skip(pos as int))),
{
    if pos < data.len() && data[pos] <= 1 {
        assert(data@.skip(pos as int).skip(1) =~= data@.skip(pos + 1));
        Some((data[pos] == 1, pos + 1))
    } else {
        None
    }
}

pub(crate) fn read_u16(data: &[u8], pos: usize) -> (r: Option<(u16, usize)>)
    requires
        pos <= data@.len(),
    ensures
        reads(r, data@, pos, parse_u16(data@.skip(pos as int))),
{
    if data.len() - pos >= 2 {
        let v = u16_from_le_bytes(slice_subrange(data, pos, pos + 2));
        assert(data@.subrange(pos as int, pos + 2) =~= data@.skip(pos as int).take(2));
        assert(data@.skip(pos as int).skip(2) =~= data@.skip(pos + 2));
        Some((v, pos + 2))
    } else {
        None
    }
}

pub(crate) fn read_u32(data: &[u8], pos: usize) -> (r: Option<(u32, usize)>)
    requires
        pos <= data@.len(),
    ensures
        reads(r, data@, pos, parse_u32(data@.skip(pos as int))),
{
    if data.len() - pos >= 4 {
        let v = u32_from_le_bytes(slice_subrange(data, pos, pos + 4));
        assert(data@.subrange(pos as int, pos + 4) =~= data@.skip(pos as int).take(4));
        assert(data@.skip(pos as int).skip(4) =~= data@.skip(pos + 4));
        Some((v, pos + 4))
    } else {
        None
    }
}

pub(crate) fn read_u64(data: &[u8], pos: usize) -> (r: Option<(u64, usize)>)
    requires
        pos <= data@.len(),
    ensures
        reads(r, data@, pos, parse_u64(data@.skip(pos as int))),
{
    if data.len() - pos >= 8 {
        let v = u64_from_le_bytes(slice_subrange(data, pos, pos + 8));
        assert(data@.subrange(pos as int, pos + 8) =~= data@.skip(pos as int).take(8));
        assert(data@.skip(pos as int).skip(8) =~= data@.skip(pos + 8));
        Some((v, pos + 8))
    } else {
        None
    }
}

pub(crate) fn read_i64(data: &[u8], pos: usize) -> (r: Option<(i64, usize)>)
    requires
        pos <= data@.len(),
    ensures
        reads(r, data@, pos, parse_i64(data@.skip(pos as int))),
{
    if data.len() - pos >= 8 {
        let v = u64_from_le_bytes(slice_subrange(data, pos, pos + 8));
        assert(data@.subrange(pos as int, pos + 8) =~= data@.skip(pos as int).take(8));
        assert(data@.skip(pos as int).skip(8) =~= data@.skip(pos + 8));
        Some((v as i64, pos + 8))
    } else {
        None
    }
}

pub(crate) fn read_array<const N: usize>(data: &[u8], pos: usize) -> (r: Option<([u8; N], usize)>)
    requires
        pos <= data@.len(),
    ensures
        reads(r, data@, pos, parse_array::<N>(data@.skip(pos as int))),
{
    if data.len() - pos < N {
        return None;
    }
    let mut out = [0u8; N];
    let mut i: usize = 0;
    while i < N
        invariant
            i <= N,
            pos + N <= data@.len(),
            pos + N <= usize::MAX,
            forall|j: int| 0 <= j < i ==> out@[j] == data@[pos + j],
        decreases N - i,
    {
        out[i] = data[pos + i];
        i += 1;
    }
    proof {
        let s = data@.skip(pos as int).take(N as int);
        assert(out@ =~= s);
        lemma_array_of::<N>(s);
        assert(data@.skip(pos as int).skip(N as int) =~= data@.skip(pos + N));
    }
    Some((out, pos + N))
}

pub(crate) fn read_pubkey(data: &[u8], pos: usize) -> (r: Option<(Pubkey, usize)>)
    requires
        pos <= data@.len(),
    ensures
        reads(r, data@, pos, parse_pubkey(data@.skip(pos as int))),
{
    match read_array::<32>(data, pos) {
        Some((bytes, next)) => Some((Pubkey { bytes }, next)),
        None => None,
    }
}

pub(crate) fn read_option_pubkey(data: &[u8], pos: usize) -> (r: Option<(Option<Pubkey>, usize)>)
    requires
        pos <= data@.len(),
    ensures
        reads(r, data@, pos, parse_option_pubkey(data@.skip(pos as int))),
{
    if pos >= data.len() {
        return None;
    }
    let flag = data[pos];
    if flag == 0 {
        assert(data@.skip(pos as int).skip(1) =~= data@.skip(pos + 1));
        Some((None, pos + 1))
    } else if flag == 1 {
        match read_array::<32>(data, pos + 1) {
            Some((bytes, next)) => {
                proof {
                    let s = data@.skip(pos as int);
                    assert(s.subrange(1, 33) =~= data@.skip(pos + 1).take(32));
                    assert(s.skip(33) =~= data@.skip(pos + 1).skip(32));
                }
                Some((Some(Pubkey { bytes }), next))
            },
            None => None,
        }
    } else {
        None
    }
}

pub(crate) fn read_option_i64(data: &[u8], pos: usize) -> (r: Option<(Option<i64>, usize)>)
    requires
        pos <= data@.len(),
    ensures
        reads(r, data@, pos, parse_option_i64(data@.skip(pos as int))),
{
    if pos >= data.len() {
        return None;
    }
    let flag = data[pos];
    if flag == 0 {
        assert(data@.skip(pos as int).skip(1) =~= data@.skip(pos + 1));
        Some((None, pos + 1))
    } else if flag == 1 {
        match read_i64(data, pos + 1) {
            Some((t, next)) => {
                proof {
                    let s = data@.skip(pos as int);
                    assert(s.subrange(1, 9) =~= data@.skip(pos + 1).take(8));
                    assert(s.skip(9) =~= data@.skip(pos + 1).skip(8));
                }
                Some((Some(t), next))
            },
            None => None,
        }
    } else {
        None
    }
}

pub(crate) fn read_bytes(data: &[u8], pos: usize) -> (r: Option<(Vec<u8>, usize)>)
    requires
        pos <= data@.len(),
    ensures
        match r {
            Some((v, next)) => reads(Some((v@, next)), data@, pos, parse_bytes(data@.skip(pos as int))),
            None => parse_bytes(data@.skip(pos as int)) is None,
        },
{
    let (len, start) = read_u32(data, pos)?;
    let len = len as usize;
    if data.len() - start < len {
        return None;
    }
    let out = slice_to_vec(slice_subrange(data, start, start + len));
    proof {
        assert(out@ =~= data@.skip(start as int).take(len as int));
        assert(data@.skip(start as int).skip(len as int) =~= data@.skip(start + len));
    }
    Some((out, start + len))
}

// ---------------------------------------------------------------------------
// Writing
// ---------------------------------------------------------------------------

pub(crate) fn write_u8(buf: &mut Vec<u8>, v: u8)
    ensures
        final(buf)@ == old(buf)@ + wire_u8(v),
{
    buf.push(v);
    assert(buf@ =~= old(buf)@ + wire_u8(v));
}

pub(crate) fn write_bool(buf: &mut Vec<u8>, v: bool)
    ensures
        final(buf)@ == old(buf)@ + wire_bool(v),
{
    buf.push(if v { 1 } else { 0 });
    assert(buf@ =~= old(buf)@ + wire_bool(v));
}

pub(crate) fn write_slice(buf: &mut Vec<u8>, v: &[u8])
    ensures
        final(buf)@ == old(buf)@ + v@,
{
    buf.extend_from_slice(v);
}

pub(crate) fn write_u16(buf: &mut Vec<u8>, v: u16)
    ensures
        final(buf)@ == old(buf)@ + wire_u16(v),
{
    let bytes = u16_to_le_bytes(v);
    buf.extend_from_slice(bytes.as_slice());
}

pub(crate) fn write_u32(buf: &mut Vec<u8>, v: u32)
    ensures
        final(buf)@ == old(buf)@ + wire_u32(v),
{
    let bytes = u32_to_le_bytes(v);
    buf.extend_from_slice(bytes.as_slice());
}

pub(crate) fn write_u64(buf: &mut Vec<u8>, v: u64)
    ensures
        final(buf)@ == old(buf)@ + wire_u64(v),
{
    let bytes = u64_to_le_bytes(v);
    buf.extend_from_slice(bytes.as_slice());
}

pub(crate) fn write_i64(buf: &mut Vec<u8>, v: i64)
    ensures
        final(buf)@ == old(buf)@ + wire_i64(v),
{
    let bytes = u64_to_le_bytes(v as u64);
    buf.extend_from_slice(bytes.as_slice());
}

pub(crate) fn write_pubkey(buf: &mut Vec<u8>, v: &Pubkey)
    ensures
        final(buf)@ == old(buf)@ + wire_pubkey(*v),
{
    buf.extend_from_slice(v.as_ref());
}

pub(crate) fn write_option_pubkey(buf: &mut Vec<u8>, v: &Option<Pubkey>)
    ensures
        final(buf)@ == old(buf)@ + wire_option_pubkey(*v),
{
    match v {
        Some(key) => {
            buf.push(1);
            buf.extend_from_slice(key.as_ref());
            assert(buf@ =~= old(buf)@ + wire_option_pubkey(*v));
        },
        None => {
            buf.push(0);
            assert(buf@ =~= old(buf)@ + wire_option_pubkey(*v));
        },
    }
}

pub(crate) fn write_option_i64(buf: &mut Vec<u8>, v: &Option<i64>)
    ensures
        final(buf)@ == old(buf)@ + wire_option_i64(*v),
{
    match v {
        Some(t) => {
            buf.push(1);
            write_i64(buf, *t);
            assert(buf@ =~= old(buf)@ + wire_option_i64(*v));
        },
        None => {
            buf.push(0);
            assert(buf@ =~= old(buf)@ + wire_option_i64(*v));
        },
    }
}

/// Writes the length of `v` and then `v`.
pub(crate) fn write_bytes(buf: &mut Vec<u8>, v: &[u8])
    requires
        v@.len() <= u32::MAX,
    ensures
        final(buf)@ == old(buf)@ + wire_bytes(v@),
{
    write_u32(buf, v.len() as u32);
    buf.extend_from_slice(v);
    assert(buf@ =~= old(buf)@ + wire_bytes(v@));
}

/// Writes the length of the text in bytes and then its bytes.
pub(crate) fn write_string(buf: &mut Vec<u8>, v: &str)
    requires
        v.spec_bytes().len() <= u32::MAX,
    ensures
        final(buf)@ == old(buf)@ + wire_string(v@),
{
    write_bytes(buf, v.as_bytes());
}

// ---------------------------------------------------------------------------
// Reading undoes writing
// ---------------------------------------------------------------------------

/// What follows a field may be taken with the field or with the rest.
pub proof fn lemma_concat_assoc(a: Seq<u8>, b: Seq<u8>, c: Seq<u8>)
    ensures
        a + (b + c) == (a + b) + c,
{
    assert(a + (b + c) =~= (a + b) + c);
}

/// A byte is read back from what it is written as, whatever follows.
pub proof fn lemma_u8_round_trip(v: u8, rest: Seq<u8>)
    ensures
        parse_u8(wire_u8(v) + rest) == Some((v, rest)),
{
    assert((wire_u8(v) + rest).skip(1) =~= rest);
}

/// A boolean is read back from what it is written as, whatever follows.
pub proof fn lemma_bool_round_trip(v: bool, rest: Seq<u8>)
    ensures
        parse_bool(wire_bool(v) + rest) == Some((v, rest)),
{
    assert((wire_bool(v) + rest).skip(1) =~= rest);
}

/// A 16-bit integer is read back from what it is written as.
pub proof fn lemma_u16_round_trip(v: u16, rest: Seq<u8>)
    ensures
        parse_u16(wire_u16(v) + rest) == Some((v, rest)),
        wire_u16(v).len() == 2,
{
    lemma_auto_spec_u16_to_from_le_bytes();
    let s = wire_u16(v) + rest;
    assert(s.take(2) =~= wire_u16(v));
    assert(s.skip(2) =~= rest);
}

/// A 32-bit integer is read back from what it is written as.
pub proof fn lemma_u32_round_trip(v: u32, rest: Seq<u8>)
    ensures
        parse_u32(wire_u32(v) + rest) == Some((v, rest)),
        wire_u32(v).len() == 4,
{
    lemma_auto_spec_u32_to_from_le_bytes();
    let s = wire_u32(v) + rest;
    assert(s.take(4) =~= wire_u32(v));
    assert(s.skip(4) =~= rest);
}

/// A 64-bit integer is read back from what it is written as.
pub proof fn lemma_u64_round_trip(v: u64, rest: Seq<u8>)
    ensures
        parse_u64(wire_u64(v) + rest) == Some((v, rest)),
        wire_u64(v).len() == 8,
{
    lemma_auto_spec_u64_to_from_le_bytes();
    let s = wire_u64(v) + rest;
    assert(s.take(8) =~= wire_u64(v));
    assert(s.skip(8) =~= rest);
}

/// A signed 64-bit integer is read back from what it is written as.
pub proof fn lemma_i64_round_trip(v: i64, rest: Seq<u8>)
    ensures
        parse_i64(wire_i64(v) + rest) == Some((v, rest)),
        wire_i64(v).len() == 8,
{
    lemma_auto_spec_u64_to_from_le_bytes();
    let s = wire_i64(v) + rest;
    assert(s.take(8) =~= wire_i64(v));
    assert(s.skip(8) =~= rest);
    assert((v as u64) as i64 == v) by (bit_vector);
}

/// An array of bytes is read back from its bytes.
pub proof fn lemma_array_round_trip<const N: usize>(v: [u8; N], rest: Seq<u8>)
    ensures
        parse_array::<N>(v@ + rest) == Some((v, rest)),
        v@.len() == N,
{
    broadcast use vstd::array::group_array_axioms;

    let s = v@ + rest;
    assert(s.take(N as int) =~= v@);
    assert(s.skip(N as int) =~= rest);
    lemma_array_of::<N>(v@);
}

/// A key is read back from its bytes.
pub proof fn lemma_pubkey_round_trip(v: Pubkey, rest: Seq<u8>)
    ensures
        parse_pubkey(wire_pubkey(v) + rest) == Some((v, rest)),
        wire_pubkey(v).len() == 32,
{
    lemma_array_round_trip::<32>(v.bytes, rest);
}

/// An optional key is read back from what it is written as.
pub proof fn lemma_option_pubkey_round_trip(v: Option<Pubkey>, rest: Seq<u8>)
    ensures
        parse_option_pubkey(wire_option_pubkey(v) + rest) == Some((v, rest)),
        wire_option_pubkey(v).len() == if v is Some { 33int } else { 1int },
{
    broadcast use vstd::array::group_array_axioms;

    let s = wire_option_pubkey(v) + rest;
    match v {
        Some(key) => {
            assert(s.subrange(1, 33) =~= key@);
            assert(s.skip(33) =~= rest);
            lemma_array_of::<32>(key@);
        },
        None => {
            assert(s.skip(1) =~= rest);
        },
    }
}

/// An optional time is read back from what it is written as.
pub proof fn lemma_option_i64_round_trip(v: Option<i64>, rest: Seq<u8>)
    ensures
        parse_option_i64(wire_option_i64(v) + rest) == Some((v, rest)),
        wire_option_i64(v).len() == if v is Some { 9int } else { 1int },
{
    lemma_auto_spec_u64_to_from_le_bytes();
    let s = wire_option_i64(v) + rest;
    match v {
        Some(t) => {
            assert(s.subrange(1, 9) =~= wire_i64(t));
            assert(s.skip(9) =~= rest);
            assert((t as u64) as i64 == t) by (bit_vector);
        },
        None => {
            assert(s.skip(1) =~= rest);
        },
    }
}

/// Bytes behind their length are read back, if the length field counts
/// them.
pub proof fn lemma_bytes_round_trip(v: Seq<u8>, rest: Seq<u8>)
    requires
        v.len() <= u32::MAX,
    ensures
        parse_bytes(wire_bytes(v) + rest) == Some((v, rest)),
        wire_bytes(v).len() == 4 + v.len(),
{
    let s = wire_bytes(v) + rest;
    lemma_u32_round_trip(v.len() as u32, v + rest);
    assert(s =~= wire_u32(v.len() as u32) + (v + rest));
    assert((v + rest).take(v.len() as int) =~= v);
    assert((v + rest).skip(v.len() as int) =~= rest);
}

/// A text is read back from the bytes it is written as.
pub proof fn lemma_string_round_trip(v: Seq<char>, rest: Seq<u8>)
    requires
        encode_utf8(v).len() <= u32::MAX,
    ensures
        parse_string(wire_string(v) + rest) == Some((v, rest)),
{
    let bytes = encode_utf8(v);
    let s = wire_string(v) + rest;
    lemma_auto_spec_u32_to_from_le_bytes();
    let len = bytes.len() as u32;
    assert(s.take(4) =~= spec_u32_to_le_bytes(len));
    assert(s.skip(4) =~= bytes + rest);
    assert(s.skip(4).take(len as int) =~= bytes);
    assert(s.skip(4).skip(len as int) =~= rest);
    vstd::utf8::encode_utf8_valid_utf8(v);
    encode_utf8_decode_utf8(v);
}

} // verus!
