//! The prefetch queue as the trace sees it: its bytes, oldest first, and
//! whether a byte was fetched ahead of need.

use vstd::prelude::*;
use crate::text::{hex_w, push_hex};

verus! {

pub struct InstructionQueue {
    pub bytes: Vec<u8>,
    pub preload: bool,
}

/// The queue contents as two hex digits per byte, oldest first.
pub open spec fn queue_text(bytes: Seq<u8>) -> Seq<char>
    decreases bytes.len(),
{
    if bytes.len() == 0 {
        Seq::empty()
    } else {
        queue_text(bytes.drop_last()) + hex_w(bytes.last() as nat, 2)
    }
}

impl InstructionQueue {
    pub fn new() -> (r: InstructionQueue)
        ensures
            r.bytes@.len() == 0,
            !r.preload,
    {
        InstructionQueue { bytes: Vec::new(), preload: false }
    }

    pub fn has_preload(&self) -> (r: bool)
        ensures
            r == self.preload,
    {
        self.preload
    }

    /// The queue contents, two hex digits per byte.
    pub fn to_string(&self) -> (r: String)
        ensures
            r@ == queue_text(self.bytes@),
    {
        let mut s = String::new();
        let mut i: usize = 0;
        while i < self.bytes.len()
            invariant
                i <= self.bytes@.len(),
                s@ == queue_text(self.bytes@.subrange(0, i as int)),
            decreases self.bytes@.len() - i,
        {
            push_hex(&mut s, self.bytes[i] as u64, 2);
            proof {
                let next = self.bytes@.subrange(0, i + 1);
                assert(next.drop_last() =~= self.bytes@.subrange(0, i as int));
            }
            i = i + 1;
        }
        assert(self.bytes@.subrange(0, i as int) =~= self.bytes@);
        s
    }
}

} // verus!
