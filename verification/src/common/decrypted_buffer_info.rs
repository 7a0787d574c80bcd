use vstd::prelude::*;

verus! {

/// Where the decrypted application data lies in the receive buffer, and how
/// much of it the reader has taken.
#[derive(Debug, Clone, Copy, PartialEq, Eq, Structural)]
pub struct DecryptedBufferInfo {
    pub offset: usize,
    pub len: usize,
    pub consumed: usize,
}

impl DecryptedBufferInfo {
    /// No data.
    pub fn new() -> (i: Self)
        ensures
            i.offset == 0 && i.len == 0 && i.consumed == 0,
    {
        DecryptedBufferInfo { offset: 0, len: 0, consumed: 0 }
    }
}

} // verus!
