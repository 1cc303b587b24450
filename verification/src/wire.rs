//! Wire primitives the message schemas are built from: base-128 varints.
//! Bytes with the high bit set continue the number; the byte that ends it
//! carries the most significant bits.

use vstd::arithmetic::div_mod::{lemma_fundamental_div_mod, lemma_multiply_divide_lt};
use vstd::arithmetic::mul::lemma_mul_inequality;
use vstd::arithmetic::power2::{lemma2_to64, lemma2_to64_rest, lemma_pow2_adds, lemma_pow2_strictly_increases, pow2};
use vstd::prelude::*;
use vstd::slice::{slice_subrange, slice_to_vec};

verus! {

/// Raw varint at the front of `b`: the value and the count of bytes consumed.
/// No bound on length or value is applied here.
pub open spec fn spec_varint_raw(b: Seq<u8>) -> Option<(nat, nat)>
    decreases b.len(),
{
    if b.len() == 0 {
        None
    } else if b[0] < 0x80 {
        Some((b[0] as nat, 1))
    } else {
        match spec_varint_raw(b.skip(1)) {
            None => None,
            Some((v, c)) => Some(((b[0] - 0x80) as nat + 128 * v, (c + 1) as nat)),
        }
    }
}

/// The varint accepted on the wire: at most 10 bytes, value within `u64`.
pub open spec fn spec_parse_varint(b: Seq<u8>) -> Option<(u64, nat)> {
    match spec_varint_raw(b) {
        None => None,
        Some((v, c)) => if c <= 10 && v <= u64::MAX {
            Some((v as u64, c))
        } else {
            None
        },
    }
}

/// A successful raw parse consumes between 1 byte and the whole input.
pub proof fn lemma_varint_raw_bounds(b: Seq<u8>)
    ensures
        spec_varint_raw(b) matches Some(r) ==> 1 <= r.1 <= b.len(),
    decreases b.len(),
{
    if b.len() > 0 && b[0] >= 0x80 {
        lemma_varint_raw_bounds(b.skip(1));
    }
}

/// The shortest encoding of a number as a varint.
pub open spec fn spec_encode_varint(v: nat) -> Seq<u8>
    decreases v,
{
    if v < 128 {
        seq![v as u8]
    } else {
        seq![((v % 128) + 128) as u8] + spec_encode_varint(v / 128)
    }
}

/// A value below `2^(7k)` encodes in at most `k` bytes.
proof fn lemma_encode_varint_small_len(v: nat, k: nat)
    requires
        k >= 1,
        v < pow2(7 * k),
    ensures
        spec_encode_varint(v).len() <= k,
    decreases k,
{
    if v >= 128 {
        assert(pow2(7) == 128) by {
            lemma2_to64();
        }
        if k == 1 {
            assert(false);
        }
        assert(pow2(7 * k) == 128 * pow2((7 * (k - 1)) as nat)) by {
            lemma_pow2_adds(7, (7 * (k - 1)) as nat);
            assert(7 + 7 * (k - 1) == 7 * k);
        }
        lemma_multiply_divide_lt(v as int, 128, pow2((7 * (k - 1)) as nat) as int);
        lemma_encode_varint_small_len(v / 128, (k - 1) as nat);
    }
}

/// An encoded varint takes at least 1 byte, and at most 10 for a `u64` value.
pub proof fn lemma_encode_varint_len(v: nat)
    ensures
        1 <= spec_encode_varint(v).len(),
        v <= u64::MAX ==> spec_encode_varint(v).len() <= 10,
{
    if v <= u64::MAX {
        assert(v < pow2(70)) by {
            lemma2_to64();
            lemma_pow2_strictly_increases(64, 70);
        }
        lemma_encode_varint_small_len(v, 10);
    }
}

/// Parsing the front of `spec_encode_varint(v) + rest` finds exactly `v` and
/// consumes exactly the encoding.
pub proof fn lemma_varint_raw_round_trip(v: nat, rest: Seq<u8>)
    ensures
        spec_varint_raw(spec_encode_varint(v) + rest) == Some(
            (v, spec_encode_varint(v).len() as nat),
        ),
    decreases v,
{
    let e = spec_encode_varint(v);
    let b = e + rest;
    if v < 128 {
        assert(b[0] == v as u8);
    } else {
        let hd = ((v % 128) + 128) as u8;
        assert(b[0] == hd);
        lemma_varint_raw_round_trip(v / 128, rest);
        assert(b.skip(1) =~= spec_encode_varint(v / 128) + rest);
        assert((hd - 0x80) as nat + 128 * (v / 128) == v) by {
            lemma_fundamental_div_mod(v as int, 128);
        }
    }
}

/// The bounded parse inverts the encoder for any `u64` value.
pub proof fn lemma_varint_round_trip(v: u64, rest: Seq<u8>)
    ensures
        spec_parse_varint(spec_encode_varint(v as nat) + rest) == Some(
            (v, spec_encode_varint(v as nat).len() as nat),
        ),
{
    lemma_varint_raw_round_trip(v as nat, rest);
    lemma_encode_varint_len(v as nat);
}

/// A raw parse result moved out from under `k` continuation bytes whose low
/// bits accumulate to `acc`, with `p` the weight `2^(7k)` of the next byte.
spec fn spec_shifted(r: Option<(nat, nat)>, acc: nat, p: nat, k: nat) -> Option<(nat, nat)> {
    match r {
        None => None,
        Some((v, c)) => Some(((acc + p * v) as nat, (c + k) as nat)),
    }
}

/// Reads the varint at offset `start` of `b`; `None` when the bytes there are
/// not a varint the wire accepts.
pub fn parse_varint(b: &Vec<u8>, start: usize) -> (r: Option<(u64, usize)>)
    requires
        start <= b@.len(),
    ensures
        match r {
            Some((v, c)) => {
                &&& spec_parse_varint(b@.skip(start as int)) == Some((v, c as nat))
                &&& 1 <= c <= b@.len() - start
            },
            None => spec_parse_varint(b@.skip(start as int)) == None::<(u64, nat)>,
        },
{
    let ghost whole = b@.skip(start as int);
    let mut k: usize = 0;
    let mut acc: u64 = 0;
    let mut p: u64 = 1;
    proof {
        lemma2_to64();
    }
    loop
        invariant
            k <= 9,
            start + k <= b@.len(),
            p == pow2((7 * k) as nat),
            acc < p,
            whole == b@.skip(start as int),
            spec_varint_raw(whole) == spec_shifted(
                spec_varint_raw(b@.skip(start + k)),
                acc as nat,
                p as nat,
                k as nat,
            ),
        decreases 10 - k,
    {
        proof {
            lemma2_to64();
            lemma2_to64_rest();
        }
        if b.len() - start <= k {
            assert(b@.skip(start + k).len() == 0);
            return None;
        }
        let byte = b[start + k];
        let ghost suffix = b@.skip(start + k);
        proof {
            assert(suffix[0] == b@[start + k]);
            assert(suffix.skip(1) =~= b@.skip(start + k + 1));
        }
        if byte < 0x80 {
            // Ending byte: the raw value is acc + p * byte, over k + 1 bytes.
            assert(spec_varint_raw(suffix) == Some::<(nat, nat)>((byte as nat, 1)));
            if k == 9 && byte > 1 {
                // 9 low groups and a top byte of 2 or more puts the value past
                // the 64th bit, which the wire does not accept.
                proof {
                    assert(p * byte >= p * 2) by {
                        lemma_mul_inequality(2, byte as int, p as int);
                        assert(p * 2 == 2 * p) by (nonlinear_arith);
                        assert(p * byte == byte * p) by (nonlinear_arith);
                    }
                    assert(p * 2 == 0x1_0000_0000_0000_0000) by {
                        assert(p == pow2(63));
                        assert(pow2(63) * 2 == pow2(64)) by {
                            lemma_pow2_adds(63, 1);
                        }
                    }
                }
                return None;
            }
            assert(acc + p * byte <= u64::MAX) by {
                lemma_varint_final_fits(acc, p, byte as u64, k as nat);
            }
            let v = acc + p * (byte as u64);
            return Some((v, k + 1));
        }
        // Continuation byte: its low 7 bits contribute at weight p.
        let low = byte - 0x80;
        if k == 9 {
            // An ending byte here would be the 11th; the wire accepts at most
            // 10 bytes.
            proof {
                lemma_varint_raw_bounds(suffix.skip(1));
            }
            return None;
        }
        proof {
            lemma_varint_step(acc, p, low as u64, k as nat);
        }
        let ghost acc0 = acc;
        let ghost p0 = p;
        acc = acc + p * (low as u64);
        p = p * 128;
        k = k + 1;
        proof {
            assert(spec_varint_raw(whole) == spec_shifted(
                spec_varint_raw(b@.skip(start + k)),
                acc as nat,
                p as nat,
                k as nat,
            )) by {
                let inner = spec_varint_raw(b@.skip(start + k));
                if inner is Some {
                    let (v, c) = inner.unwrap();
                    assert(spec_varint_raw(suffix) == Some::<(nat, nat)>(
                        ((low as nat + 128 * v) as nat, (c + 1) as nat),
                    ));
                    assert(acc0 + p0 * (low as nat + 128 * v) == acc + p * v) by (nonlinear_arith)
                        requires
                            acc == acc0 + p0 * low,
                            p == p0 * 128,
                    ;
                }
            }
        }
    }
}

/// Bounds letting the final accumulation stay within `u64`.
proof fn lemma_varint_final_fits(acc: u64, p: u64, byte: u64, k: nat)
    requires
        k <= 9,
        byte < 128,
        k == 9 ==> byte <= 1,
        p == pow2(7 * k),
        acc < p,
    ensures
        acc + p * byte <= u64::MAX,
{
    lemma2_to64();
    lemma2_to64_rest();
    if k == 9 {
        assert(p * byte <= p * 1) by {
            lemma_mul_inequality(byte as int, 1, p as int);
            assert(p * byte == byte * p) by (nonlinear_arith);
            assert(p * 1 == 1 * p) by (nonlinear_arith);
        }
    } else {
        assert(p <= pow2(56)) by {
            if k < 8 {
                lemma_pow2_strictly_increases(7 * k, 56);
            }
        }
        assert(p * byte <= pow2(56) * 127) by (nonlinear_arith)
            requires
                byte < 128,
                0 < p <= pow2(56),
        ;
        assert(pow2(56) * 127 < pow2(63)) by {
            lemma_pow2_adds(56, 7);
            assert(pow2(56) * 127 < pow2(56) * 128) by (nonlinear_arith)
                requires
                    pow2(56) > 0,
            ;
        }
    }
}

/// One continuation step keeps the accumulator under the next weight.
proof fn lemma_varint_step(acc: u64, p: u64, low: u64, k: nat)
    requires
        k <= 8,
        low < 128,
        p == pow2(7 * k),
        acc < p,
    ensures
        acc + p * low < p * 128,
        p * 128 == pow2((7 * (k + 1)) as nat),
        p * 128 <= u64::MAX,
{
    lemma2_to64();
    lemma2_to64_rest();
    assert(pow2(7 * k) * pow2(7) == pow2((7 * k + 7) as nat)) by {
        lemma_pow2_adds(7 * k, 7);
    }
    assert(7 * k + 7 == 7 * (k + 1));
    assert(p * 128 <= pow2(63)) by {
        assert(p <= pow2(56)) by {
            if k < 8 {
                lemma_pow2_strictly_increases(7 * k, 56);
            }
        }
        lemma_mul_inequality(p as int, pow2(56) as int, 128);
        assert(pow2(56) * 128 == pow2(63)) by {
            lemma_pow2_adds(56, 7);
        }
    }
    assert(acc + p * low < p * 128) by (nonlinear_arith)
        requires
            acc < p,
            low < 128,
            p > 0,
    ;
}

/// Appends the varint encoding of `v` to `out`.
pub fn encode_varint(out: &mut Vec<u8>, v: u64)
    ensures
        final(out)@ == old(out)@ + spec_encode_varint(v as nat),
{
    let mut x = v;
    loop
        invariant
            old(out)@ + spec_encode_varint(v as nat) == out@ + spec_encode_varint(x as nat),
        decreases x,
    {
        if x < 128 {
            out.push(x as u8);
            assert(old(out)@ + spec_encode_varint(v as nat) =~= out@);
            return ;
        }
        let ghost out0 = out@;
        let ghost x0 = x;
        out.push((x % 128 + 128) as u8);
        x = x / 128;
        proof {
            assert(spec_encode_varint(x0 as nat) == seq![((x0 % 128) + 128) as u8]
                + spec_encode_varint(x as nat));
            assert(out0 + spec_encode_varint(x0 as nat) =~= out@ + spec_encode_varint(x as nat));
        }
    }
}

/// One decoded field value: either a number or a length-delimited chunk.
#[derive(Debug, Clone, PartialEq, Eq)]
pub enum FieldVal {
    Varint(u64),
    Chunk(Vec<u8>),
}

/// Ghost image of `FieldVal`.
pub enum FieldValV {
    Varint(u64),
    Chunk(Seq<u8>),
}

impl View for FieldVal {
    type V = FieldValV;

    open spec fn view(&self) -> FieldValV {
        match self {
            FieldVal::Varint(v) => FieldValV::Varint(*v),
            FieldVal::Chunk(c) => FieldValV::Chunk(c@),
        }
    }
}

/// One field of the stream: its field number and its value.
#[derive(Debug, Clone, PartialEq, Eq)]
pub struct RawField {
    pub num: u64,
    pub val: FieldVal,
}

/// Ghost image of `RawField`.
pub struct RawFieldV {
    pub num: u64,
    pub val: FieldValV,
}

impl View for RawField {
    type V = RawFieldV;

    open spec fn view(&self) -> RawFieldV {
        RawFieldV { num: self.num, val: self.val@ }
    }
}

/// Ghost image of a parsed field list.
pub open spec fn view_fields(fs: Seq<RawField>) -> Seq<RawFieldV> {
    fs.map_values(|f: RawField| f@)
}

/// The whole input decoded as a field stream: each field is a varint tag
/// `8 * num + wire`, then a varint value (wire kind 0) or a varint byte count
/// and that many bytes (wire kind 2). A field number of zero, any other wire
/// kind, or bytes that are not a well-formed stream make the whole input
/// unacceptable.
pub open spec fn spec_parse_fields(b: Seq<u8>) -> Option<Seq<RawFieldV>>
    decreases b.len(),
{
    if b.len() == 0 {
        Some(Seq::empty())
    } else {
        match spec_parse_varint(b) {
            None => None,
            Some((tag, c)) => {
                if c < 1 || c > b.len() {
                    None
                } else {
                    let num = tag / 8;
                    let wire = tag % 8;
                    if num == 0 {
                        None
                    } else if wire == 0 {
                        match spec_parse_varint(b.skip(c as int)) {
                            None => None,
                            Some((v, c2)) => {
                                if c2 < 1 || c + c2 > b.len() {
                                    None
                                } else {
                                    match spec_parse_fields(b.skip((c + c2) as int)) {
                                        None => None,
                                        Some(rest) => Some(
                                            seq![RawFieldV { num, val: FieldValV::Varint(v) }]
                                                + rest,
                                        ),
                                    }
                                }
                            },
                        }
                    } else if wire == 2 {
                        match spec_parse_varint(b.skip(c as int)) {
                            None => None,
                            Some((n, c2)) => {
                                if c2 < 1 || c + c2 + n > b.len() {
                                    None
                                } else {
                                    match spec_parse_fields(b.skip((c + c2 + n) as int)) {
                                        None => None,
                                        Some(rest) => Some(
                                            seq![
                                                RawFieldV {
                                                    num,
                                                    val: FieldValV::Chunk(
                                                        b.subrange(
                                                            (c + c2) as int,
                                                            (c + c2 + n) as int,
                                                        ),
                                                    ),
                                                },
                                            ] + rest,
                                        ),
                                    }
                                }
                            },
                        }
                    } else {
                        None
                    }
                }
            },
        }
    }
}

/// A parse result with `acc` already-read fields in front of it.
pub open spec fn spec_prepended(r: Option<Seq<RawFieldV>>, acc: Seq<RawFieldV>) -> Option<
    Seq<RawFieldV>,
> {
    match r {
        None => None,
        Some(rest) => Some(acc + rest),
    }
}

/// Decodes the whole buffer as a field stream, or `None` when the bytes are
/// not one.
#[verifier::rlimit(100)]
pub fn parse_fields(b: &Vec<u8>) -> (r: Option<Vec<RawField>>)
    ensures
        match r {
            Some(fs) => spec_parse_fields(b@) == Some(view_fields(fs@)),
            None => spec_parse_fields(b@) == None::<Seq<RawFieldV>>,
        },
{
    let mut out: Vec<RawField> = Vec::new();
    let mut cur: usize = 0;
    proof {
        assert(b@.skip(0) =~= b@);
        assert(view_fields(out@) =~= Seq::<RawFieldV>::empty());
        if spec_parse_fields(b@) is Some {
            assert(view_fields(out@) + spec_parse_fields(b@).unwrap() =~= spec_parse_fields(
                b@,
            ).unwrap());
        }
    }
    loop
        invariant
            cur <= b@.len(),
            spec_parse_fields(b@) == spec_prepended(
                spec_parse_fields(b@.skip(cur as int)),
                view_fields(out@),
            ),
        decreases b@.len() - cur,
    {
        let ghost suffix = b@.skip(cur as int);
        if cur == b.len() {
            assert(suffix.len() == 0);
            assert(view_fields(out@) + Seq::<RawFieldV>::empty() =~= view_fields(out@));
            return Some(out);
        }
        let (tag, c) = match parse_varint(b, cur) {
            None => {
                return None;
            },
            Some(r) => r,
        };
        let num = tag / 8;
        let wire = tag % 8;
        if num == 0 {
            return None;
        }
        if wire == 0 {
            let (v, c2) = match parse_varint(b, cur + c) {
                None => {
                    proof {
                        assert(suffix.skip(c as int) =~= b@.skip(cur + c));
                    }
                    return None;
                },
                Some(r) => r,
            };
            let ghost out0 = out@;
            out.push(RawField { num, val: FieldVal::Varint(v) });
            proof {
                assert(suffix.skip(c as int) =~= b@.skip(cur + c));
                assert(suffix.skip((c + c2) as int) =~= b@.skip(cur + c + c2));
                assert(view_fields(out@) =~= view_fields(out0) + seq![
                    RawFieldV { num, val: FieldValV::Varint(v) },
                ]);
                lemma_prepend_assoc(
                    spec_parse_fields(b@.skip(cur + c + c2)),
                    view_fields(out0),
                    seq![RawFieldV { num, val: FieldValV::Varint(v) }],
                );
            }
            cur = cur + c + c2;
        } else if wire == 2 {
            let (n, c2) = match parse_varint(b, cur + c) {
                None => {
                    proof {
                        assert(suffix.skip(c as int) =~= b@.skip(cur + c));
                    }
                    return None;
                },
                Some(r) => r,
            };
            proof {
                assert(suffix.skip(c as int) =~= b@.skip(cur + c));
            }
            let avail = b.len() - cur - c - c2;
            if n > avail as u64 {
                return None;
            }
            let n_us = n as usize;
            let chunk = slice_to_vec(slice_subrange(b.as_slice(), cur + c + c2, cur + c + c2 + n_us));
            let ghost out0 = out@;
            out.push(RawField { num, val: FieldVal::Chunk(chunk) });
            proof {
                assert(suffix.skip((c + c2 + n) as int) =~= b@.skip(cur + c + c2 + n_us));
                assert(suffix.subrange((c + c2) as int, (c + c2 + n) as int) =~= b@.subrange(
                    cur + c + c2,
                    cur + c + c2 + n_us,
                ));
                assert(view_fields(out@) =~= view_fields(out0) + seq![
                    RawFieldV {
                        num,
                        val: FieldValV::Chunk(
                            suffix.subrange((c + c2) as int, (c + c2 + n) as int),
                        ),
                    },
                ]);
                lemma_prepend_assoc(
                    spec_parse_fields(b@.skip(cur + c + c2 + n_us)),
                    view_fields(out0),
                    seq![
                        RawFieldV {
                            num,
                            val: FieldValV::Chunk(
                                suffix.subrange((c + c2) as int, (c + c2 + n) as int),
                            ),
                        },
                    ],
                );
            }
            cur = cur + c + c2 + n_us;
        } else {
            return None;
        }
    }
}

/// Prepending field lists one at a time or concatenated comes to the same.
proof fn lemma_prepend_assoc(r: Option<Seq<RawFieldV>>, a: Seq<RawFieldV>, h: Seq<RawFieldV>)
    ensures
        spec_prepended(spec_prepended(r, h), a) == spec_prepended(r, a + h),
{
    if r is Some {
        assert(a + (h + r.unwrap()) =~= (a + h) + r.unwrap());
    }
}

/// The encoding of one varint-valued field.
pub open spec fn spec_encode_varint_field(num: u64, v: u64) -> Seq<u8>
    recommends
        1 <= num <= 0xFFFF,
{
    spec_encode_varint((8 * num) as nat) + spec_encode_varint(v as nat)
}

/// The encoding of one chunk-valued field.
pub open spec fn spec_encode_chunk_field(num: u64, bytes: Seq<u8>) -> Seq<u8>
    recommends
        1 <= num <= 0xFFFF,
        bytes.len() <= u64::MAX,
{
    spec_encode_varint((8 * num + 2) as nat) + spec_encode_varint(bytes.len()) + bytes
}

/// Appends the encoding of a varint-valued field to `out`.
pub fn encode_varint_field(out: &mut Vec<u8>, num: u64, v: u64)
    requires
        1 <= num <= 0xFFFF,
    ensures
        final(out)@ == old(out)@ + spec_encode_varint_field(num, v),
{
    encode_varint(out, 8 * num);
    encode_varint(out, v);
    assert(final(out)@ =~= old(out)@ + spec_encode_varint_field(num, v));
}

/// Appends the encoding of a chunk-valued field to `out`.
pub fn encode_chunk_field(out: &mut Vec<u8>, num: u64, bytes: &Vec<u8>)
    requires
        1 <= num <= 0xFFFF,
    ensures
        final(out)@ == old(out)@ + spec_encode_chunk_field(num, bytes@),
{
    encode_varint(out, 8 * num + 2);
    let n = bytes.len();
    encode_varint(out, n as u64);
    out.extend_from_slice(bytes.as_slice());
    assert(final(out)@ =~= old(out)@ + spec_encode_chunk_field(num, bytes@));
}

/// Parsing an encoded varint field off the front finds exactly that field.
pub proof fn lemma_parse_varint_field(num: u64, v: u64, rest: Seq<u8>)
    requires
        1 <= num <= 0xFFFF,
    ensures
        spec_parse_fields(spec_encode_varint_field(num, v) + rest) == spec_prepended(
            spec_parse_fields(rest),
            seq![RawFieldV { num, val: FieldValV::Varint(v) }],
        ),
{
    let tag = (8 * num) as u64;
    let e1 = spec_encode_varint(tag as nat);
    let e2 = spec_encode_varint(v as nat);
    let b = spec_encode_varint_field(num, v) + rest;
    assert(b =~= e1 + (e2 + rest));
    lemma_varint_round_trip(tag, e2 + rest);
    lemma_encode_varint_len(tag as nat);
    let c = e1.len() as nat;
    assert(b.len() > 0) by {
        lemma_encode_varint_len(tag as nat);
    }
    assert(spec_parse_varint(b) == Some((tag, c)));
    vstd::arithmetic::div_mod::lemma_fundamental_div_mod_converse(
        tag as int,
        8,
        num as int,
        0,
    );
    assert(tag / 8 == num && tag % 8 == 0);
    assert(b.skip(c as int) =~= e2 + rest);
    lemma_varint_round_trip(v, rest);
    let c2 = e2.len() as nat;
    assert(spec_parse_varint(b.skip(c as int)) == Some((v, c2)));
    lemma_encode_varint_len(v as nat);
    assert(b.skip((c + c2) as int) =~= rest);
}

/// Parsing an encoded chunk field off the front finds exactly that field.
pub proof fn lemma_parse_chunk_field(num: u64, bytes: Seq<u8>, rest: Seq<u8>)
    requires
        1 <= num <= 0xFFFF,
        bytes.len() <= u64::MAX,
    ensures
        spec_parse_fields(spec_encode_chunk_field(num, bytes) + rest) == spec_prepended(
            spec_parse_fields(rest),
            seq![RawFieldV { num, val: FieldValV::Chunk(bytes) }],
        ),
{
    let tag = (8 * num + 2) as u64;
    let e1 = spec_encode_varint(tag as nat);
    let e2 = spec_encode_varint(bytes.len());
    let b = spec_encode_chunk_field(num, bytes) + rest;
    assert(b =~= e1 + (e2 + (bytes + rest)));
    lemma_varint_round_trip(tag, e2 + (bytes + rest));
    lemma_encode_varint_len(tag as nat);
    let c = e1.len() as nat;
    assert(spec_parse_varint(b) == Some((tag, c)));
    vstd::arithmetic::div_mod::lemma_fundamental_div_mod_converse(
        tag as int,
        8,
        num as int,
        2,
    );
    assert(tag / 8 == num && tag % 8 == 2);
    assert(b.skip(c as int) =~= e2 + (bytes + rest));
    let blen_u64 = bytes.len() as u64;
    lemma_varint_round_trip(blen_u64, bytes + rest);
    let c2 = e2.len() as nat;
    assert(spec_parse_varint(b.skip(c as int)) == Some((blen_u64, c2)));
    lemma_encode_varint_len(bytes.len());
    assert(c + c2 + bytes.len() <= b.len());
    assert(b.subrange((c + c2) as int, (c + c2 + bytes.len()) as int) =~= bytes);
    assert(b.skip((c + c2 + bytes.len()) as int) =~= rest);
}

} // verus!
