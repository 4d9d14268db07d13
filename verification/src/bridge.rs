//! The attribute bridge: the static table of attribute descriptors that the
//! request surface serves, and the mapping of each operation's result to a
//! status code and payload. The transport read and write themselves happen
//! outside; this module fixes every decision around them.

use vstd::prelude::*;
use vstd::string::StringExecFns;
use crate::errors::{spec_outcome_of, spec_status_code, outcome_of, status_code, AttrError};
use crate::uintqty;
use crate::uintqty::UIntQtyValue;

verus! {

/// A fixed-point scale factor, `mantissa * 10^exp10`. Carried as a pair of
/// integers so that the configuration table can state it exactly; the
/// caller that needs the real number forms the product itself.
#[derive(Clone, Copy, Debug, PartialEq, Eq, Structural)]
pub struct ScaleFactor {
    pub mantissa: u64,
    pub exp10: i32,
}

/// Static per-attribute configuration: the route it is served under, the
/// short identifiers it is read and written through (an attribute is
/// readable or writable exactly when the respective identifier is
/// present), its byte width, its declared unit, and, for scaled
/// attributes, its scale factor.
#[derive(Clone, Debug)]
pub struct AttributeDescriptor {
    pub route: String,
    pub read_id: Option<u16>,
    pub write_id: Option<u16>,
    pub width: usize,
    pub unit: Option<String>,
    pub scale: Option<ScaleFactor>,
}

impl AttributeDescriptor {
    /// The invariants of attribute configuration: a width the codec
    /// admits, at least one direction of access, and a scaled attribute
    /// always has a unit and a nonzero scale.
    pub open spec fn wf(self) -> bool {
        &&& 1 <= self.width <= 8
        &&& (self.read_id is Some || self.write_id is Some)
        &&& (self.scale is Some ==> self.unit is Some)
        &&& (self.scale is Some ==> self.scale->Some_0.mantissa > 0)
    }
}

/// The attribute catalog: every attribute the request surface serves, one
/// row per route. Adding an attribute is a table edit, not new code.
pub fn attribute_table() -> (t: Vec<AttributeDescriptor>)
    ensures
        t@.len() == 7,
        forall|i: int| 0 <= i < t@.len() ==> (#[trigger] t@[i]).wf(),
        t@[0].route@ == "/heap"@,
        t@[0].read_id == Some(0x0002u16) && t@[0].write_id is None,
        t@[0].width == 4usize && t@[0].unit is Some && t@[0].unit->Some_0@ == "bytes"@,
        t@[0].scale is None,
        t@[1].route@ == "/battery"@,
        t@[1].read_id == Some(0x0003u16) && t@[1].write_id is None,
        t@[1].width == 2usize && t@[1].unit is Some && t@[1].unit->Some_0@ == "volts"@,
        t@[1].scale == Some(ScaleFactor { mantissa: 100709544518u64, exp10: -15i32 }),
        t@[2].route@ == "/bootcount"@,
        t@[2].read_id == Some(0x0010u16) && t@[2].write_id is None,
        t@[2].width == 1usize && t@[2].unit is None && t@[2].scale is None,
        t@[3].route@ == "/light"@,
        t@[3].read_id == Some(0x0004u16) && t@[3].write_id is None,
        t@[3].width == 4usize && t@[3].unit is Some && t@[3].unit->Some_0@ == "lux"@,
        t@[3].scale == Some(ScaleFactor { mantissa: 1u64, exp10: -3i32 }),
        t@[4].route@ == "/light/threshold"@,
        t@[4].read_id == Some(0x0006u16) && t@[4].write_id == Some(0x0008u16),
        t@[4].width == 4usize && t@[4].unit is Some && t@[4].unit->Some_0@ == "lux"@,
        t@[4].scale == Some(ScaleFactor { mantissa: 1u64, exp10: -1i32 }),
        t@[5].route@ == "/accelerometer"@,
        t@[5].read_id == Some(0x0005u16) && t@[5].write_id is None,
        t@[5].width == 3usize && t@[5].unit is None && t@[5].scale is None,
        t@[6].route@ == "/accelerometer/threshold"@,
        t@[6].read_id == Some(0x0007u16) && t@[6].write_id == Some(0x0009u16),
        t@[6].width == 2usize && t@[6].unit is Some && t@[6].unit->Some_0@ == "g"@,
        t@[6].scale == Some(ScaleFactor { mantissa: 1u64, exp10: -3i32 }),
{
    let mut t: Vec<AttributeDescriptor> = Vec::new();
    t.push(
        AttributeDescriptor {
            route: String::from_str("/heap"),
            read_id: Some(0x0002),
            write_id: None,
            width: 4,
            unit: Some(String::from_str("bytes")),
            scale: None,
        },
    );
    t.push(
        AttributeDescriptor {
            route: String::from_str("/battery"),
            read_id: Some(0x0003),
            write_id: None,
            width: 2,
            unit: Some(String::from_str("volts")),
            scale: Some(ScaleFactor { mantissa: 100709544518, exp10: -15 }),
        },
    );
    t.push(
        AttributeDescriptor {
            route: String::from_str("/bootcount"),
            read_id: Some(0x0010),
            write_id: None,
            width: 1,
            unit: None,
            scale: None,
        },
    );
    t.push(
        AttributeDescriptor {
            route: String::from_str("/light"),
            read_id: Some(0x0004),
            write_id: None,
            width: 4,
            unit: Some(String::from_str("lux")),
            scale: Some(ScaleFactor { mantissa: 1, exp10: -3 }),
        },
    );
    t.push(
        AttributeDescriptor {
            route: String::from_str("/light/threshold"),
            read_id: Some(0x0006),
            write_id: Some(0x0008),
            width: 4,
            unit: Some(String::from_str("lux")),
            scale: Some(ScaleFactor { mantissa: 1, exp10: -1 }),
        },
    );
    t.push(
        AttributeDescriptor {
            route: String::from_str("/accelerometer"),
            read_id: Some(0x0005),
            write_id: None,
            width: 3,
            unit: None,
            scale: None,
        },
    );
    t.push(
        AttributeDescriptor {
            route: String::from_str("/accelerometer/threshold"),
            read_id: Some(0x0007),
            write_id: Some(0x0009),
            width: 2,
            unit: Some(String::from_str("g")),
            scale: Some(ScaleFactor { mantissa: 1, exp10: -3 }),
        },
    );
    t
}

/// Turn the transport's answer to a read into the response for the
/// request surface: a transport or locator error reports its outcome's
/// status with no payload; returned bytes are decoded against the
/// attribute's width, a successful decode answering the decoded quantity
/// (with `unit` attached unchanged) under the success status, and a
/// sentinel or length failure answering its outcome's status with no
/// payload.
pub fn read_response(read_result: Result<Vec<u8>, AttrError>, width: usize, unit: Option<String>)
    -> (r: (u16, Option<UIntQtyValue>))
    requires
        1 <= width <= 8,
    ensures
        read_result is Err ==> r.0 == spec_status_code(spec_outcome_of(read_result->Err_0)) && r.1
            is None,
        read_result is Ok && uintqty::spec_decode(read_result->Ok_0@, width as nat) is Ok ==> {
            &&& r.0 == 200
            &&& r.1 is Some
            &&& r.1->Some_0.value as nat == uintqty::spec_decode(
                read_result->Ok_0@,
                width as nat,
            )->Ok_0
            &&& r.1->Some_0.unit == unit
        },
        read_result is Ok && uintqty::spec_decode(read_result->Ok_0@, width as nat) is Err ==> r.0
            == spec_status_code(
            spec_outcome_of(uintqty::spec_decode(read_result->Ok_0@, width as nat)->Err_0),
        ) && r.1 is None,
        r.0 == 200 <==> (read_result is Ok && uintqty::spec_decode(
            read_result->Ok_0@,
            width as nat,
        ) is Ok),
{
    match read_result {
        Err(e) => (status_code(&outcome_of(&e)), None),
        Ok(bytes) => match uintqty::decode(&bytes, width, unit) {
            Ok(q) => (200, Some(q)),
            Err(e) => (status_code(&outcome_of(&e)), None),
        },
    }
}

/// Turn the outcome of a write — either the validated bytes were handed to
/// the transport and it answered, or a validation or locator step already
/// failed — into the bare status for the request surface.
pub fn write_response(write_result: &Result<(), AttrError>) -> (s: u16)
    ensures
        write_result is Ok ==> s == 200,
        write_result is Err ==> s == spec_status_code(spec_outcome_of(write_result->Err_0)),
        s == 200 <==> write_result is Ok,
{
    match write_result {
        Ok(()) => 200,
        Err(e) => status_code(&outcome_of(e)),
    }
}

} // verus!
