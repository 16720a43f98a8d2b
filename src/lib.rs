//! A verified core for driving FIDO2 assertions: option and capability bit-sets,
//! the ordered construction of an assertion request, per-statement verification
//! outcomes, and the release order of native handles.

pub mod flags;
pub mod error;
pub mod request;
pub mod assertion;
pub mod device;
pub mod release;
