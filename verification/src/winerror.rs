//! The status codes that every operation of the model hands back.

use vstd::prelude::*;

verus! {

/// A status code: 32 bits, signed. A negative code is a failure.
pub type HRESULT = i32;

/// The operation succeeded.
pub const S_OK: HRESULT = 0;

/// The operation succeeded (the same code as `S_OK`).
pub const NOERROR: HRESULT = 0;

/// The object does not expose the requested interface (`0x80004002`).
pub const E_NOINTERFACE: HRESULT = -2147467262;

/// The class cannot be created as part of an aggregate (`0x80040110`).
pub const CLASS_E_NOAGGREGATION: HRESULT = -2147221232;

} // verus!
