//! The scaled-quantity codec layer. A scaled attribute carries a real-valued
//! quantity as a fixed-point integer: the raw integer on the wire times a
//! per-attribute scale factor. This layer delegates all byte-level work to
//! the unsigned-integer codec; the multiplication by the scale factor (and,
//! on the write path, the rounding division by it) is real-number
//! arithmetic and is left to the unverified caller, which hands this layer
//! the raw integer. The unit is mandatory at this layer.

use vstd::prelude::*;
use crate::errors::AttrError;
use crate::uintqty;
use crate::uintqty::UIntQtyValue;

verus! {

/// Decode the raw integer of a scaled attribute's payload: exactly the
/// unsigned decode with no unit attached at this level, surfacing the same
/// `LengthMismatch` and `Unavailable` failures unchanged. The caller scales
/// the returned raw integer and attaches the mandatory unit.
pub fn decode_raw(bytes: &Vec<u8>, width: usize) -> (r: Result<u64, AttrError>)
    requires
        1 <= width <= 8,
    ensures
        (r is Ok <==> uintqty::spec_decode(bytes@, width as nat) is Ok),
        r is Ok ==> r->Ok_0 as nat == uintqty::spec_decode(bytes@, width as nat)->Ok_0,
        r is Err ==> r->Err_0 == uintqty::spec_decode(bytes@, width as nat)->Err_0,
        (r is Err && r->Err_0 is Unavailable) <==> (bytes@.len() == width && uintqty::all_ff(
            bytes@,
        )),
        (r is Err && r->Err_0 is LengthMismatch) <==> bytes@.len() != width,
{
    match uintqty::decode(bytes, width, None) {
        Ok(q) => Ok(q.value),
        Err(e) => Err(e),
    }
}

/// Validate a scaled write request whose value has already been reduced to
/// its raw integer `raw_value`, and produce the bytes to write. The
/// request's unit must equal the attribute's declared unit; the
/// unit-mismatch, overflow and sentinel-collision checks are inherited
/// unmodified from the unsigned codec's `post`.
pub fn post_raw(raw_value: u64, request_unit: String, declared_unit: &String, width: usize) -> (r:
    Result<Vec<u8>, AttrError>)
    requires
        1 <= width <= 8,
    ensures
        (r is Err && r->Err_0 is UnitMismatch) <==> request_unit@ != declared_unit@,
        request_unit@ == declared_unit@ ==> {
            &&& (r is Ok <==> uintqty::spec_encode(raw_value as nat, width as nat) is Ok)
            &&& (r is Ok ==> r->Ok_0@ == uintqty::spec_encode(raw_value as nat, width as nat)->Ok_0)
            &&& (r is Err ==> r->Err_0 == uintqty::spec_encode(
                raw_value as nat,
                width as nat,
            )->Err_0)
        },
        (r is Err && r->Err_0 is ValueTooLarge) <==> (request_unit@ == declared_unit@ && (
        raw_value as nat) >= uintqty::pow256(width as nat)),
        (r is Err && r->Err_0 is InvalidValue) <==> (request_unit@ == declared_unit@ && (
        raw_value as nat) < uintqty::pow256(width as nat) && uintqty::all_ff(
            uintqty::be_bytes(raw_value as nat, width as nat),
        )),
{
    let declared: Option<String> = Some(declared_unit.clone());
    let request = UIntQtyValue { value: raw_value, unit: Some(request_unit) };
    uintqty::post(request, &declared, width)
}

} // verus!
