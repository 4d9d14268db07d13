//! The characteristic locator. Every attribute is addressed externally by a
//! compact 16-bit identifier; the locator expands it into a full 128-bit
//! UUID by splicing it into the reserved field of the fixed Bluetooth base
//! UUID, and resolves it to a position in a service's characteristic list.
//! UUIDs are carried as plain `u128` values.

use vstd::prelude::*;
use crate::errors::AttrError;

verus! {

/// The fixed 128-bit Bluetooth base UUID, `00000000-0000-1000-8000-00805F9B34FB`,
/// whose upper reserved field (bits 96..112) is zero.
pub const BT_BASE_UUID: u128 = 0x00000000_0000_1000_8000_00805F9B34FB;

/// The place value of the reserved 16-bit field within the base UUID: a
/// short identifier is spliced in by multiplying it by `2^96`.
pub const BT_SHORT_ID_PLACE: u128 = 0x1_0000_0000_0000_0000_0000_0000;

/// The full UUID a short identifier denotes: the short identifier spliced
/// into the base UUID's reserved field, byte-exact.
pub open spec fn spec_uuid_from_short(short_id: u16) -> u128 {
    ((short_id as u128) * BT_SHORT_ID_PLACE + BT_BASE_UUID) as u128
}

/// Expand a compact 16-bit identifier into the full 128-bit characteristic
/// UUID.
pub fn uuid_from_short(short_id: u16) -> (r: u128)
    ensures
        r == spec_uuid_from_short(short_id),
{
    (short_id as u128) * BT_SHORT_ID_PLACE + BT_BASE_UUID
}

/// The one well-known GATT service on the peripheral, reduced to what the
/// locator reads: its own UUID and the UUIDs of its characteristics, in
/// discovery order.
pub struct GattService {
    pub uuid: u128,
    pub characteristic_uuids: Vec<u128>,
}

/// Resolve a short identifier against a service: the position of the first
/// characteristic whose UUID equals the spliced full UUID, or
/// `CharacteristicNotFound` exactly when no characteristic matches.
pub fn resolve(service: &GattService, short_id: u16) -> (r: Result<usize, AttrError>)
    ensures
        r is Ok ==> 0 <= r->Ok_0 < service.characteristic_uuids@.len()
            && service.characteristic_uuids@[r->Ok_0 as int] == spec_uuid_from_short(short_id)
            && (forall|j: int|
            0 <= j < r->Ok_0 ==> service.characteristic_uuids@[j] != spec_uuid_from_short(
                short_id,
            )),
        r is Err ==> r->Err_0 is CharacteristicNotFound,
        (r is Ok <==> exists|j: int|
            0 <= j < service.characteristic_uuids@.len() && service.characteristic_uuids@[j]
                == spec_uuid_from_short(short_id)),
{
    let target = uuid_from_short(short_id);
    let n = service.characteristic_uuids.len();
    let mut i: usize = 0;
    while i < n
        invariant
            n == service.characteristic_uuids@.len(),
            i <= n,
            target == spec_uuid_from_short(short_id),
            forall|j: int| 0 <= j < i ==> service.characteristic_uuids@[j] != target,
        decreases n - i,
    {
        if service.characteristic_uuids[i] == target {
            return Ok(i);
        }
        i += 1;
    }
    Err(AttrError::CharacteristicNotFound)
}

} // verus!
