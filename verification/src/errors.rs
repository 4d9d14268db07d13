//! The error taxonomy shared by every component, and its mapping to the four
//! externally visible outcomes with their status codes.

use vstd::prelude::*;

verus! {

/// Every failure the core can report. Connector-time errors (`NoAdapter`
/// through `DiscoveryFailed`), locator misses (`ServiceNotFound`,
/// `CharacteristicNotFound`), codec rejections (`LengthMismatch`,
/// `Unavailable`, `ValueTooLarge`, `InvalidValue`, `UnitMismatch`),
/// per-operation transport failures, and the supervisor's fatal
/// `Disconnected` condition.
#[derive(Clone, Copy, Debug, PartialEq, Eq, Structural)]
pub enum AttrError {
    NoAdapter,
    DeviceNotFound,
    ConnectFailed,
    DiscoveryFailed,
    ServiceNotFound,
    CharacteristicNotFound,
    LengthMismatch,
    Unavailable,
    ValueTooLarge,
    InvalidValue,
    UnitMismatch,
    TransportFailure,
    Disconnected,
}

/// The externally visible result classes of a request.
#[derive(Clone, Copy, Debug, PartialEq, Eq, Structural)]
pub enum Outcome {
    Success,
    NotFound,
    Unavailable,
    BadRequest,
    InternalFailure,
}

/// How each error is classified at the bridge boundary: an absent
/// adapter/device/service/characteristic is "not found"; a sentinel read is
/// "unavailable"; a rejected write value is a "bad request"; everything else
/// is an internal failure.
pub open spec fn spec_outcome_of(e: AttrError) -> Outcome {
    match e {
        AttrError::NoAdapter => Outcome::NotFound,
        AttrError::DeviceNotFound => Outcome::NotFound,
        AttrError::ServiceNotFound => Outcome::NotFound,
        AttrError::CharacteristicNotFound => Outcome::NotFound,
        AttrError::Unavailable => Outcome::Unavailable,
        AttrError::ValueTooLarge => Outcome::BadRequest,
        AttrError::InvalidValue => Outcome::BadRequest,
        AttrError::UnitMismatch => Outcome::BadRequest,
        AttrError::ConnectFailed => Outcome::InternalFailure,
        AttrError::DiscoveryFailed => Outcome::InternalFailure,
        AttrError::LengthMismatch => Outcome::InternalFailure,
        AttrError::TransportFailure => Outcome::InternalFailure,
        AttrError::Disconnected => Outcome::InternalFailure,
    }
}

/// The status code that reports each outcome on the request surface.
pub open spec fn spec_status_code(o: Outcome) -> u16 {
    match o {
        Outcome::Success => 200,
        Outcome::NotFound => 404,
        Outcome::Unavailable => 503,
        Outcome::BadRequest => 400,
        Outcome::InternalFailure => 500,
    }
}

/// Classify an error as one of the four failure outcomes.
pub fn outcome_of(e: &AttrError) -> (o: Outcome)
    ensures
        o == spec_outcome_of(*e),
        o != Outcome::Success,
{
    match e {
        AttrError::NoAdapter => Outcome::NotFound,
        AttrError::DeviceNotFound => Outcome::NotFound,
        AttrError::ServiceNotFound => Outcome::NotFound,
        AttrError::CharacteristicNotFound => Outcome::NotFound,
        AttrError::Unavailable => Outcome::Unavailable,
        AttrError::ValueTooLarge => Outcome::BadRequest,
        AttrError::InvalidValue => Outcome::BadRequest,
        AttrError::UnitMismatch => Outcome::BadRequest,
        AttrError::ConnectFailed => Outcome::InternalFailure,
        AttrError::DiscoveryFailed => Outcome::InternalFailure,
        AttrError::LengthMismatch => Outcome::InternalFailure,
        AttrError::TransportFailure => Outcome::InternalFailure,
        AttrError::Disconnected => Outcome::InternalFailure,
    }
}

/// The numeric status code for an outcome.
pub fn status_code(o: &Outcome) -> (s: u16)
    ensures
        s == spec_status_code(*o),
{
    match o {
        Outcome::Success => 200,
        Outcome::NotFound => 404,
        Outcome::Unavailable => 503,
        Outcome::BadRequest => 400,
        Outcome::InternalFailure => 500,
    }
}

} // verus!
