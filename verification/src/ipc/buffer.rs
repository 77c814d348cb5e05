//! A reusable buffer for sending IPC messages.

use vstd::prelude::*;

verus! {

/// Size of reusable message buffer
pub const BUFSIZ: usize = 8192;

/// A reusable buffer for sending/receiving IPC messages.
pub struct Buffer {
    buf: Vec<u8>,
}

impl View for Buffer {
    type V = Seq<u8>;

    closed spec fn view(&self) -> Seq<u8> {
        self.buf@
    }
}

impl Buffer {
    /// Allocate a new Buffer, zeroed, one frame wide.
    pub fn new() -> (r: Buffer)
        ensures
            r@.len() == BUFSIZ,
            forall|i: int| 0 <= i < r@.len() ==> r@[i] == 0u8,
    {
        let mut buf: Vec<u8> = Vec::new();
        let mut i: usize = 0;
        while i < BUFSIZ
            invariant
                i <= BUFSIZ,
                buf@.len() == i,
                forall|k: int| 0 <= k < i ==> buf@[k] == 0u8,
            decreases BUFSIZ - i,
        {
            buf.push(0);
            i += 1;
        }
        Buffer { buf }
    }

    /// The buffer's bytes, for the writer that fills them.
    pub fn bytes(&self) -> (r: &Vec<u8>)
        ensures
            r@ == self@,
    {
        &self.buf
    }
}

} // verus!
