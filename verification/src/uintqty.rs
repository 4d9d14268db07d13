//! The unsigned-integer quantity codec: attribute payloads are sequences of
//! `width` bytes (`1 <= width <= 8`), carrying an unsigned integer in
//! most-significant-byte-first order, with the all-`0xFF` pattern reserved as
//! the "value not yet set" sentinel. Decoding accumulates the bytes in the
//! order received (first byte most significant); encoding emits the bytes of
//! a value in that same order, so the two are exact inverses.

use vstd::prelude::*;
use vstd::arithmetic::div_mod::{
    lemma_basic_div, lemma_div_denominator, lemma_fundamental_div_mod,
};

verus! {

/// An unsigned integer quantity with an optional unit. This is the payload
/// shape of every plain (unscaled) attribute read, and of every write
/// request once a scaled request has been reduced to its raw integer.
pub struct UIntQtyValue {
    pub value: u64,
    pub unit: Option<String>,
}

/// Every byte of `s` is `0xFF`: the sentinel pattern.
pub open spec fn all_ff(s: Seq<u8>) -> bool {
    forall|i: int| 0 <= i < s.len() ==> s[i] == 0xffu8
}

/// `256^n`, the number of distinct values of an `n`-byte payload.
pub open spec fn pow256(n: nat) -> nat
    decreases n,
{
    if n == 0 {
        1
    } else {
        256 * pow256((n - 1) as nat)
    }
}

/// The integer a byte sequence denotes, first byte most significant:
/// each byte shifts the accumulated value up by one byte and is added in.
pub open spec fn be_value(s: Seq<u8>) -> nat
    decreases s.len(),
{
    if s.len() == 0 {
        0
    } else {
        be_value(s.drop_last()) * 256 + (s.last() as nat)
    }
}

/// The `w`-byte sequence denoting `v`, first byte most significant: the
/// last byte is the low byte of `v`, the bytes before it spell `v / 256`.
pub open spec fn be_bytes(v: nat, w: nat) -> Seq<u8>
    decreases w,
{
    if w == 0 {
        Seq::empty()
    } else {
        be_bytes(v / 256, (w - 1) as nat).push((v % 256) as u8)
    }
}

/// What decoding a payload of declared width `width` yields: a length
/// mismatch is reported first, then the sentinel, and any other payload
/// denotes its accumulated integer.
pub open spec fn spec_decode(bytes: Seq<u8>, width: nat) -> Result<nat, crate::errors::AttrError> {
    if bytes.len() != width {
        Err(crate::errors::AttrError::LengthMismatch)
    } else if all_ff(bytes) {
        Err(crate::errors::AttrError::Unavailable)
    } else {
        Ok(be_value(bytes))
    }
}

/// What encoding `value` into `width` bytes yields: a value needing more
/// than `width` bytes is too large, a value whose emitted bytes would be
/// the sentinel pattern is invalid, anything else gives its byte sequence.
pub open spec fn spec_encode(value: nat, width: nat) -> Result<Seq<u8>, crate::errors::AttrError> {
    if value >= pow256(width) {
        Err(crate::errors::AttrError::ValueTooLarge)
    } else if all_ff(be_bytes(value, width)) {
        Err(crate::errors::AttrError::InvalidValue)
    } else {
        Ok(be_bytes(value, width))
    }
}

pub proof fn lemma_pow256_pos(n: nat)
    ensures
        pow256(n) >= 1,
    decreases n,
{
    if n > 0 {
        lemma_pow256_pos((n - 1) as nat);
    }
}

pub proof fn lemma_pow256_mono(a: nat, b: nat)
    requires
        a <= b,
    ensures
        pow256(a) <= pow256(b),
    decreases b,
{
    if a < b {
        lemma_pow256_mono(a, (b - 1) as nat);
        lemma_pow256_pos((b - 1) as nat);
    }
}

/// The concrete sizes of the widths this codec admits.
pub proof fn lemma_pow256_concrete()
    ensures
        pow256(7) == 0x100000000000000,
        pow256(8) == 0x10000000000000000,
{
    reveal_with_fuel(pow256, 9);
}

/// A byte sequence denotes a value below `256^len`.
pub proof fn lemma_be_value_bound(s: Seq<u8>)
    ensures
        be_value(s) < pow256(s.len()),
    decreases s.len(),
{
    if s.len() > 0 {
        lemma_be_value_bound(s.drop_last());
        assert(pow256(s.len()) == 256 * pow256((s.len() - 1) as nat));
    }
}

pub proof fn lemma_be_bytes_len(v: nat, w: nat)
    ensures
        be_bytes(v, w).len() == w,
    decreases w,
{
    if w > 0 {
        lemma_be_bytes_len(v / 256, (w - 1) as nat);
    }
}

/// Decoding inverts encoding: the bytes emitted for a representable value
/// denote that value again.
pub proof fn lemma_be_bytes_value(v: nat, w: nat)
    requires
        v < pow256(w),
    ensures
        be_value(be_bytes(v, w)) == v,
    decreases w,
{
    if w > 0 {
        let rest = be_bytes(v / 256, (w - 1) as nat);
        lemma_be_bytes_len(v / 256, (w - 1) as nat);
        assert(v / 256 < pow256((w - 1) as nat)) by {
            if v / 256 >= pow256((w - 1) as nat) {
                lemma_fundamental_div_mod(v as int, 256);
            }
        };
        lemma_be_bytes_value(v / 256, (w - 1) as nat);
        let s = be_bytes(v, w);
        assert(s.drop_last() =~= rest);
        assert(be_value(s) == be_value(rest) * 256 + (v % 256));
        lemma_fundamental_div_mod(v as int, 256);
    }
}

/// The emitted bytes of a representable value are the sentinel pattern
/// exactly when the value is the largest one of its width.
pub proof fn lemma_be_bytes_all_ff(v: nat, w: nat)
    requires
        v < pow256(w),
    ensures
        all_ff(be_bytes(v, w)) <==> v == pow256(w) - 1,
    decreases w,
{
    if w == 0 {
        assert(all_ff(be_bytes(v, w)));
    } else {
        let rest = be_bytes(v / 256, (w - 1) as nat);
        let s = be_bytes(v, w);
        lemma_be_bytes_len(v / 256, (w - 1) as nat);
        lemma_be_bytes_len(v, w);
        assert(v / 256 < pow256((w - 1) as nat)) by {
            if v / 256 >= pow256((w - 1) as nat) {
                lemma_fundamental_div_mod(v as int, 256);
            }
        };
        lemma_be_bytes_all_ff(v / 256, (w - 1) as nat);
        lemma_fundamental_div_mod(v as int, 256);
        assert(s.drop_last() =~= rest);
        assert(s.last() == (v % 256) as u8);
        assert(all_ff(s) <==> (all_ff(rest) && v % 256 == 255)) by {
            if all_ff(rest) && v % 256 == 255 {
                assert forall|i: int| 0 <= i < s.len() implies s[i] == 0xffu8 by {
                    if i < s.len() - 1 {
                        assert(s[i] == rest[i]);
                    }
                }
            }
            if all_ff(s) {
                assert forall|i: int| 0 <= i < rest.len() implies rest[i] == 0xffu8 by {
                    assert(rest[i] == s[i]);
                }
            }
        };
    }
}

/// Each emitted byte, by position: byte `k` carries the `(w - 1 - k)`-th
/// byte of the value, counting bytes of the value from the least
/// significant.
pub proof fn lemma_be_bytes_index(v: nat, w: nat, k: int)
    requires
        0 <= k < w,
    ensures
        be_bytes(v, w).len() == w,
        be_bytes(v, w)[k] == ((v / pow256((w - 1 - k) as nat)) % 256) as u8,
    decreases w,
{
    lemma_be_bytes_len(v, w);
    lemma_be_bytes_len(v / 256, (w - 1) as nat);
    if k == w - 1 {
        assert(pow256(0) == 1);
        assert(v / 1 == v);
    } else {
        lemma_be_bytes_index(v / 256, (w - 1) as nat, k);
        assert(be_bytes(v, w)[k] == be_bytes(v / 256, (w - 1) as nat)[k]);
        let p = pow256((w - 2 - k) as nat);
        lemma_pow256_pos((w - 2 - k) as nat);
        lemma_div_denominator(v as int, 256, p as int);
        assert(pow256((w - 1 - k) as nat) == 256 * p);
    }
}

/// Round-trip law: every value a width can carry, short of the sentinel,
/// encodes successfully and decodes back to itself; decoding attaches the
/// caller's unit unchanged (see `decode`'s contract).
pub proof fn lemma_codec_round_trip(value: u64, width: nat)
    requires
        1 <= width <= 8,
        (value as nat) < pow256(width) - 1,
    ensures
        spec_encode(value as nat, width) is Ok,
        spec_decode(spec_encode(value as nat, width)->Ok_0, width) is Ok,
        spec_decode(spec_encode(value as nat, width)->Ok_0, width)->Ok_0 == value as nat,
{
    lemma_pow256_pos(width);
    lemma_be_bytes_len(value as nat, width);
    lemma_be_bytes_all_ff(value as nat, width);
    lemma_be_bytes_value(value as nat, width);
}

/// Decode a raw attribute payload read for an attribute of the given
/// `width`, attaching `unit` unchanged on success. Fails `LengthMismatch`
/// when the device handed back the wrong number of bytes, and `Unavailable`
/// exactly when the payload is the all-`0xFF` sentinel.
pub fn decode(bytes: &Vec<u8>, width: usize, unit: Option<String>) -> (r: Result<
    UIntQtyValue,
    crate::errors::AttrError,
>)
    requires
        1 <= width <= 8,
    ensures
        (r is Ok <==> spec_decode(bytes@, width as nat) is Ok),
        r is Ok ==> r->Ok_0.value as nat == spec_decode(bytes@, width as nat)->Ok_0,
        r is Ok ==> r->Ok_0.unit == unit,
        r is Err ==> r->Err_0 == spec_decode(bytes@, width as nat)->Err_0,
        (r is Err && r->Err_0 is Unavailable) <==> (bytes@.len() == width && all_ff(bytes@)),
        (r is Err && r->Err_0 is LengthMismatch) <==> bytes@.len() != width,
{
    if bytes.len() != width {
        return Err(crate::errors::AttrError::LengthMismatch);
    }

    let mut seen_other: bool = false;
    let mut i: usize = 0;
    while i < width
        invariant
            bytes@.len() == width,
            i <= width,
            !seen_other <==> all_ff(bytes@.take(i as int)),
        decreases width - i,
    {
        if bytes[i] != 0xff {
            seen_other = true;
        }
        proof {
            assert(bytes@.take(i + 1 as int).drop_last() =~= bytes@.take(i as int));
            assert(bytes@.take(i + 1 as int).last() == bytes@[i as int]);
            assert(all_ff(bytes@.take(i + 1 as int)) <==> (all_ff(bytes@.take(i as int))
                && bytes@[i as int] == 0xffu8)) by {
                let t1 = bytes@.take(i + 1 as int);
                let t0 = bytes@.take(i as int);
                if all_ff(t0) && bytes@[i as int] == 0xffu8 {
                    assert forall|j: int| 0 <= j < t1.len() implies t1[j] == 0xffu8 by {
                        if j < t1.len() - 1 {
                            assert(t1[j] == t0[j]);
                        }
                    }
                }
                if all_ff(t1) {
                    assert forall|j: int| 0 <= j < t0.len() implies t0[j] == 0xffu8 by {
                        assert(t0[j] == t1[j]);
                    }
                }
            };
        }
        i += 1;
    }
    proof {
        assert(bytes@.take(width as int) =~= bytes@);
    }
    if !seen_other {
        return Err(crate::errors::AttrError::Unavailable);
    }

    let mut num: u64 = 0;
    let mut i: usize = 0;
    while i < width
        invariant
            bytes@.len() == width <= 8,
            i <= width,
            num as nat == be_value(bytes@.take(i as int)),
        decreases width - i,
    {
        proof {
            lemma_be_value_bound(bytes@.take(i as int));
            lemma_pow256_mono(i as nat, 7);
            lemma_pow256_concrete();
            assert(bytes@.take(i + 1 as int).drop_last() =~= bytes@.take(i as int));
            assert(bytes@.take(i + 1 as int).last() == bytes@[i as int]);
        }
        num = num * 256 + (bytes[i] as u64);
        i += 1;
    }
    proof {
        assert(bytes@.take(width as int) =~= bytes@);
    }
    Ok(UIntQtyValue { value: num, unit })
}

/// Encode `value` into exactly `width` bytes for a write, most significant
/// byte first. Fails `ValueTooLarge` exactly when the value does not fit in
/// `width` bytes, and `InvalidValue` exactly when the bytes it would emit
/// are the all-`0xFF` sentinel.
pub fn encode(value: u64, width: usize) -> (r: Result<Vec<u8>, crate::errors::AttrError>)
    requires
        1 <= width <= 8,
    ensures
        (r is Ok <==> spec_encode(value as nat, width as nat) is Ok),
        r is Ok ==> r->Ok_0@ == spec_encode(value as nat, width as nat)->Ok_0,
        r is Err ==> r->Err_0 == spec_encode(value as nat, width as nat)->Err_0,
        (r is Err && r->Err_0 is ValueTooLarge) <==> (value as nat) >= pow256(width as nat),
        (r is Err && r->Err_0 is InvalidValue) <==> ((value as nat) < pow256(width as nat)
            && all_ff(be_bytes(value as nat, width as nat))),
{
    proof {
        vstd::arithmetic::div_mod::lemma_div_basics(value as int);
    }
    let mut low_first: Vec<u8> = Vec::new();
    let mut rest: u64 = value;
    let mut i: usize = 0;
    while i < width
        invariant
            i <= width <= 8,
            low_first@.len() == i,
            rest as nat == (value as nat) / pow256(i as nat),
            forall|j: int|
                0 <= j < i ==> low_first@[j] == (((value as nat) / pow256(j as nat)) % 256) as u8,
        decreases width - i,
    {
        proof {
            lemma_pow256_pos(i as nat);
            lemma_div_denominator(value as int, pow256(i as nat) as int, 256);
            assert(pow256((i + 1) as nat) == 256 * pow256(i as nat));
        }
        low_first.push((rest % 256) as u8);
        rest = rest / 256;
        i += 1;
    }

    if rest != 0 {
        proof {
            lemma_pow256_pos(width as nat);
            if (value as nat) < pow256(width as nat) {
                lemma_basic_div(value as int, pow256(width as nat) as int);
            }
        }
        return Err(crate::errors::AttrError::ValueTooLarge);
    }
    proof {
        lemma_pow256_pos(width as nat);
        if (value as nat) >= pow256(width as nat) {
            vstd::arithmetic::div_mod::lemma_div_is_ordered(
                pow256(width as nat) as int,
                value as int,
                pow256(width as nat) as int,
            );
            vstd::arithmetic::div_mod::lemma_div_by_self(pow256(width as nat) as int);
        }
        assert((value as nat) < pow256(width as nat));
    }

    let mut bytes: Vec<u8> = Vec::new();
    let mut j: usize = 0;
    while j < width
        invariant
            j <= width,
            low_first@.len() == width,
            bytes@.len() == j,
            forall|k: int| 0 <= k < j ==> bytes@[k] == low_first@[width - 1 - k],
        decreases width - j,
    {
        bytes.push(low_first[width - 1 - j]);
        j += 1;
    }
    proof {
        assert forall|k: int| 0 <= k < width implies bytes@[k] == be_bytes(
            value as nat,
            width as nat,
        )[k] by {
            lemma_be_bytes_index(value as nat, width as nat, k);
        }
        lemma_be_bytes_len(value as nat, width as nat);
        assert(bytes@ =~= be_bytes(value as nat, width as nat));
    }

    let mut saw_other: bool = false;
    let mut k: usize = 0;
    while k < width
        invariant
            bytes@.len() == width,
            k <= width,
            !saw_other <==> all_ff(bytes@.take(k as int)),
        decreases width - k,
    {
        if bytes[k] != 0xff {
            saw_other = true;
        }
        proof {
            let t1 = bytes@.take(k + 1 as int);
            let t0 = bytes@.take(k as int);
            assert(t1.drop_last() =~= t0);
            assert(t1.last() == bytes@[k as int]);
            assert(all_ff(t1) <==> (all_ff(t0) && bytes@[k as int] == 0xffu8)) by {
                if all_ff(t0) && bytes@[k as int] == 0xffu8 {
                    assert forall|j2: int| 0 <= j2 < t1.len() implies t1[j2] == 0xffu8 by {
                        if j2 < t1.len() - 1 {
                            assert(t1[j2] == t0[j2]);
                        }
                    }
                }
                if all_ff(t1) {
                    assert forall|j2: int| 0 <= j2 < t0.len() implies t0[j2] == 0xffu8 by {
                        assert(t0[j2] == t1[j2]);
                    }
                }
            };
        }
        k += 1;
    }
    proof {
        assert(bytes@.take(width as int) =~= bytes@);
    }
    if !saw_other {
        return Err(crate::errors::AttrError::InvalidValue);
    }
    Ok(bytes)
}

/// Whether two optional unit strings agree, character for character, with
/// two absent units also counting as agreement.
pub fn unit_eq(a: &Option<String>, b: &Option<String>) -> (r: bool)
    ensures
        r == (a.deep_view() == b.deep_view()),
{
    match (a, b) {
        (None, None) => true,
        (Some(x), Some(y)) => {
            let eq = *x == *y;
            proof {
                assert(eq == (x@ == y@));
                assert(a.deep_view() == Some(x@));
                assert(b.deep_view() == Some(y@));
            }
            eq
        },
        (None, Some(y)) => {
            proof {
                assert(a.deep_view() is None);
                assert(b.deep_view() == Some(y@));
            }
            false
        },
        (Some(x), None) => {
            proof {
                assert(a.deep_view() == Some(x@));
                assert(b.deep_view() is None);
            }
            false
        },
    }
}

/// Validate a write request against an attribute's declared unit and width
/// and produce the bytes to hand to the transport. Fails `UnitMismatch`
/// exactly when the request's unit differs from the declared one (two
/// absent units agree); otherwise behaves as `encode` on the request's
/// value. No byte sequence is produced unless every check passed, so a
/// caller that only writes what this returns never writes a rejected
/// request to the device.
pub fn post(request: UIntQtyValue, declared_unit: &Option<String>, width: usize) -> (r: Result<
    Vec<u8>,
    crate::errors::AttrError,
>)
    requires
        1 <= width <= 8,
    ensures
        (r is Err && r->Err_0 is UnitMismatch) <==> request.unit.deep_view()
            != declared_unit.deep_view(),
        request.unit.deep_view() == declared_unit.deep_view() ==> {
            &&& (r is Ok <==> spec_encode(request.value as nat, width as nat) is Ok)
            &&& (r is Ok ==> r->Ok_0@ == spec_encode(request.value as nat, width as nat)->Ok_0)
            &&& (r is Err ==> r->Err_0 == spec_encode(request.value as nat, width as nat)->Err_0)
        },
        (r is Err && r->Err_0 is ValueTooLarge) <==> (request.unit.deep_view()
            == declared_unit.deep_view() && (request.value as nat) >= pow256(width as nat)),
        (r is Err && r->Err_0 is InvalidValue) <==> (request.unit.deep_view()
            == declared_unit.deep_view() && (request.value as nat) < pow256(width as nat)
            && all_ff(be_bytes(request.value as nat, width as nat))),
{
    if !unit_eq(&request.unit, declared_unit) {
        return Err(crate::errors::AttrError::UnitMismatch);
    }
    encode(request.value, width)
}

} // verus!
