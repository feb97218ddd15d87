//! Named controller error codes. These are 16-bit values carried outside the
//! frames; the 4-bit `r_code` field of a response is a separate, narrower code
//! in which `0` alone means success.
use vstd::prelude::*;

verus! {

pub const NO_ERROR: u16 = 0x0000;

pub const UNIDENTIFIED_COMMAND: u16 = 0xE001;

} // verus!
