//! Attribute codec and device-bridge library for a BLE peripheral exposing a
//! fixed custom GATT service.
//!
//! The library holds the verified core: the unsigned-integer attribute codec
//! with its sentinel semantics, the scaled-quantity delegation layer, the
//! characteristic locator (short-identifier to full UUID), the connect
//! state machine, the connection supervisor's verdict, and the mapping of
//! the error taxonomy to externally visible outcomes. The surrounding
//! process (argument handling, HTTP serving, the BLE transport itself) is
//! unverified plumbing that feeds plain values into these functions.

pub mod bridge;
pub mod connect;
pub mod errors;
pub mod locate;
pub mod scaledqty;
pub mod uintqty;
