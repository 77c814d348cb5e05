//! The socket's place in the runtime directory, and the reusable read buffer
//! a connection decodes from.

use vstd::prelude::*;
use vstd::string::*;
use super::message::{spec_msg_frame, CodecError};

verus! {

/// Get the path for replayd's socket.
pub fn get_socket_path(runtime_dir: &str) -> (r: String)
    ensures
        r@ == runtime_dir@ + "/replayd.sock"@,
{
    let mut s = runtime_dir.to_owned();
    s.append("/replayd.sock");
    s
}

/// Max message size
pub const BUF_SIZE: usize = 8192;

/// Frame a message onto the send buffer `out`: the size header, then the
/// body. The size check comes before any byte is placed, so a rejected
/// message leaves the buffer untouched and nothing reaches the stream.
pub fn write_msg(out: &mut Vec<u8>, msg: &[u8]) -> (r: Result<(), CodecError>)
    ensures
        msg@.len() <= BUF_SIZE ==> (r is Ok && final(out)@ == old(out)@ + spec_msg_frame(msg@)),
        msg@.len() > BUF_SIZE ==> r == Err::<(), CodecError>(CodecError::PayloadTooLarge),
        msg@.len() > BUF_SIZE ==> final(out)@ == old(out)@,
{
    if msg.len() > BUF_SIZE {
        return Err(CodecError::PayloadTooLarge);
    }
    let size = msg.len() as u16;
    out.push((size / 256) as u8);
    out.push((size % 256) as u8);
    let mut i: usize = 0;
    while i < msg.len()
        invariant
            i <= msg@.len(),
            msg@.len() <= BUF_SIZE,
            size == msg@.len(),
            out@ == old(out)@ + super::message::spec_be_bytes(size) + msg@.subrange(0, i as int),
        decreases msg@.len() - i,
    {
        out.push(msg[i]);
        i += 1;
        assert(msg@.subrange(0, i as int) =~= msg@.subrange(0, i - 1) + seq![msg@[i - 1]]);
    }
    proof {
        assert(msg@.subrange(0, msg@.len() as int) =~= msg@);
        assert(out@ =~= old(out)@ + spec_msg_frame(msg@));
    }
    Ok(())
}

/// A reusable read buffer for IPC messages: one per connection, never shared.
/// The stream is read into it, and one frame is decoded from its prefix.
pub struct ReadBuffer {
    buf: Vec<u8>,
}

impl View for ReadBuffer {
    type V = Seq<u8>;

    closed spec fn view(&self) -> Seq<u8> {
        self.buf@
    }
}

impl ReadBuffer {
    /// Allocate a new ReadBuffer, zeroed, one frame wide.
    pub fn new() -> (r: ReadBuffer)
        ensures
            r@.len() == BUF_SIZE,
            forall|i: int| 0 <= i < r@.len() ==> r@[i] == 0u8,
    {
        let mut buf: Vec<u8> = Vec::new();
        let mut i: usize = 0;
        while i < BUF_SIZE
            invariant
                i <= BUF_SIZE,
                buf@.len() == i,
                forall|k: int| 0 <= k < i ==> buf@[k] == 0u8,
            decreases BUF_SIZE - i,
        {
            buf.push(0);
            i += 1;
        }
        ReadBuffer { buf }
    }

    /// The buffer's bytes, for the reader that fills them.
    pub fn bytes(&self) -> (r: &Vec<u8>)
        ensures
            r@ == self@,
    {
        &self.buf
    }

    /// Replace the buffer's contents with what was read from the stream.
    pub fn fill(&mut self, data: Vec<u8>)
        ensures
            final(self)@ == data@,
    {
        self.buf = data;
    }
}

} // verus!
