use vstd::prelude::*;

verus! {

/// One account as seen during a single instruction execution: its address and
/// its current balance. The handler only ever reads these two fields; every
/// balance mutation is performed by the host runtime, never directly by this
/// library.
#[derive(Clone, Copy, Debug)]
pub struct AccountRef {
    /// The account's address.
    pub key: [u8; 32],
    /// The account's current balance, in lamports.
    pub lamports: u64,
}

} // verus!
