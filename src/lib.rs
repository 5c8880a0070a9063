//! Client side of the binary protocol of biometric attendance terminals: frames and their
//! checksum, the buffered transfer of large payloads, and the record codecs.

use vstd::prelude::*;

pub mod attendance;
pub mod bytes;
pub mod consts;
pub mod error;
pub mod finger;
pub mod frame;
pub mod session;
pub mod text;
pub mod time;
pub mod transfer;
pub mod user;

verus! {

} // verus!
