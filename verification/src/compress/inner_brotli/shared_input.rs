//! Owned input that coders share.

use vstd::prelude::*;

use crate::compress::InputBuffer;

verus! {

/// Owned input for coders that share the buffer across section tasks and
/// therefore cannot borrow it.
#[derive(Debug)]
pub struct SharedInput(pub InputBuffer);

impl SharedInput {
    /// The bytes of the input.
    pub fn slice(&self) -> (r: &[u8])
        ensures
            r@ == self.0@,
    {
        self.0.as_slice()
    }
}

} // verus!
