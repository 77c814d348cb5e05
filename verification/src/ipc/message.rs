//! Binary framing for the control channel.
//!
//! A request travels client -> server as `[u16 length, big-endian][body]`;
//! a response travels server -> client as `[u16 length, big-endian][status
//! byte][body]`. The length is always the exact byte length of the body and
//! never exceeds [`BUF_SIZE`]. Encoding and decoding are pure functions on
//! byte vectors; the stream I/O around them lives with the binaries.

use vstd::prelude::*;
use vstd::arithmetic::div_mod::lemma_fundamental_div_mod;
use vstd::slice::{slice_subrange, slice_to_vec};

verus! {

/// The command has run successfully, exit 0
pub const STATUS_SUCCESS: u8 = 6;
/// The command has failed, exit 1
pub const STATUS_FAIL: u8 = 7;

/// Maximum body size in bytes of a single framed message
pub const BUF_SIZE: usize = 8192;

/// What can go wrong while framing or unframing a message.
#[derive(Clone, Copy, Debug, PartialEq, Eq, Structural)]
pub enum CodecError {
    /// The body is longer than [`BUF_SIZE`]; nothing was produced.
    PayloadTooLarge,
    /// The input holds fewer bytes than a whole frame needs.
    Truncated,
}

/// The two bytes of `n` in big-endian order.
pub open spec fn spec_be_bytes(n: u16) -> Seq<u8> {
    seq![(n / 256) as u8, (n % 256) as u8]
}

/// The `u16` read back from two big-endian bytes.
pub open spec fn spec_u16_of_be(hi: u8, lo: u8) -> u16 {
    (hi * 256 + lo) as u16
}

/// A request frame: length header, then the body verbatim.
pub open spec fn spec_msg_frame(body: Seq<u8>) -> Seq<u8> {
    spec_be_bytes(body.len() as u16) + body
}

/// A response frame: length header, one status byte, then the body verbatim.
pub open spec fn spec_resp_frame(status: u8, body: Seq<u8>) -> Seq<u8> {
    spec_be_bytes(body.len() as u16) + seq![status] + body
}

/// The body a request frame decodes to, or the error that stops decoding.
pub open spec fn spec_decode_msg(bytes: Seq<u8>) -> Result<Seq<u8>, CodecError> {
    if bytes.len() < 2 {
        Err(CodecError::Truncated)
    } else {
        let size = spec_u16_of_be(bytes[0], bytes[1]);
        if size > 8192 {
            Err(CodecError::PayloadTooLarge)
        } else if bytes.len() < 2 + size {
            Err(CodecError::Truncated)
        } else {
            Ok(bytes.subrange(2, 2 + size as int))
        }
    }
}

/// The status and body a response frame decodes to, or the error that stops
/// decoding.
pub open spec fn spec_decode_resp(bytes: Seq<u8>) -> Result<(u8, Seq<u8>), CodecError> {
    if bytes.len() < 3 {
        Err(CodecError::Truncated)
    } else {
        let size = spec_u16_of_be(bytes[0], bytes[1]);
        if size > 8192 {
            Err(CodecError::PayloadTooLarge)
        } else if bytes.len() < 3 + size {
            Err(CodecError::Truncated)
        } else {
            Ok((bytes[2], bytes.subrange(3, 3 + size as int)))
        }
    }
}

/// Check if a message body is within BUF_SIZE.
pub fn check_body_size(body: &Vec<u8>) -> (r: Result<(), CodecError>)
    ensures
        r is Ok <==> body@.len() <= BUF_SIZE,
        r is Err ==> r == Err::<(), CodecError>(CodecError::PayloadTooLarge),
{
    if body.len() > BUF_SIZE {
        Err(CodecError::PayloadTooLarge)
    } else {
        Ok(())
    }
}

/// An IPC message sent client -> server.
#[derive(Debug)]
pub struct Message {
    /// Body size in bytes
    size: u16,
    /// Body bytes, UTF-8 text on the wire
    body: Vec<u8>,
}

impl View for Message {
    type V = Seq<u8>;

    /// A message is its body; the size field is determined by it.
    closed spec fn view(&self) -> Seq<u8> {
        self.body@
    }
}

impl Message {
    /// The size field is the exact body length and respects the bound.
    pub closed spec fn wf(&self) -> bool {
        self.size == self.body@.len() && self.body@.len() <= 8192
    }

    pub fn body(&self) -> (r: &Vec<u8>)
        ensures
            r@ == self@,
    {
        &self.body
    }

    /// Build a message, rejecting an oversized body before any framing.
    pub fn from(body: Vec<u8>) -> (r: Result<Message, CodecError>)
        ensures
            body@.len() <= 8192 ==> (r matches Ok(m) && m@ == body@ && m.wf()),
            body@.len() > 8192 ==> r == Err::<Message, CodecError>(CodecError::PayloadTooLarge),
    {
        check_body_size(&body)?;
        let size = body.len() as u16;
        Ok(Message { size, body })
    }

    /// Frame this message as the bytes to put on the wire.
    pub fn encode(&self) -> (r: Vec<u8>)
        requires
            self.wf(),
        ensures
            r@ == spec_msg_frame(self@),
    {
        let mut out: Vec<u8> = Vec::new();
        out.push((self.size / 256) as u8);
        out.push((self.size % 256) as u8);
        let mut i: usize = 0;
        while i < self.body.len()
            invariant
                i <= self.body@.len(),
                out@ == spec_be_bytes(self.size) + self.body@.subrange(0, i as int),
            decreases self.body@.len() - i,
        {
            out.push(self.body[i]);
            i += 1;
            assert(self.body@.subrange(0, i as int)
                =~= self.body@.subrange(0, i - 1) + seq![self.body@[i - 1]]);
        }
        proof {
            assert(self.body@.subrange(0, self.body@.len() as int) =~= self.body@);
            assert(out@ =~= spec_msg_frame(self@));
        }
        out
    }

    /// Unframe one message from the start of `buf`; bytes past the frame are
    /// left for the caller.
    pub fn decode(buf: &[u8]) -> (r: Result<Message, CodecError>)
        ensures
            r matches Ok(m) ==> m.wf() && spec_decode_msg(buf@) == Ok::<Seq<u8>, CodecError>(m@),
            r matches Err(e) ==> spec_decode_msg(buf@) == Err::<Seq<u8>, CodecError>(e),
    {
        if buf.len() < 2 {
            return Err(CodecError::Truncated);
        }
        let size: u16 = (buf[0] as u16) * 256 + (buf[1] as u16);
        if size as usize > BUF_SIZE {
            return Err(CodecError::PayloadTooLarge);
        }
        if buf.len() < 2 + size as usize {
            return Err(CodecError::Truncated);
        }
        let body = slice_to_vec(slice_subrange(buf, 2, 2 + size as usize));
        Ok(Message { size, body })
    }
}

/// The classification of a status byte: the two defined codes, and an open
/// catch-all for every other byte, which is a protocol error and never a
/// silent success.
#[derive(Clone, Copy, Debug, PartialEq, Eq, Structural)]
pub enum Status {
    Success,
    Fail,
    Unrecognized(u8),
}

impl Status {
    /// How a status byte from the wire classifies.
    pub open spec fn spec_of_byte(b: u8) -> Status {
        if b == STATUS_SUCCESS {
            Status::Success
        } else if b == STATUS_FAIL {
            Status::Fail
        } else {
            Status::Unrecognized(b)
        }
    }

    pub fn of_byte(b: u8) -> (s: Status)
        ensures
            s == Status::spec_of_byte(b),
    {
        if b == STATUS_SUCCESS {
            Status::Success
        } else if b == STATUS_FAIL {
            Status::Fail
        } else {
            Status::Unrecognized(b)
        }
    }
}

/// Only the success byte classifies as success; only the failure byte as
/// failure; every other byte stays unrecognized.
pub proof fn lemma_status_mapping(b: u8)
    ensures
        Status::spec_of_byte(b) is Success <==> b == STATUS_SUCCESS,
        Status::spec_of_byte(b) is Fail <==> b == STATUS_FAIL,
        b != STATUS_SUCCESS && b != STATUS_FAIL ==> Status::spec_of_byte(b) == Status::Unrecognized(
            b,
        ),
{
}

/// What a client reports about a response that did not succeed.
#[derive(Debug, PartialEq, Eq)]
pub enum StatusError {
    /// The daemon answered with the failure status; the body explains.
    StatusFail(Vec<u8>),
    /// The daemon answered with a status byte outside the protocol.
    StatusUnknown(u8),
}

impl StatusError {
    /// The line a client prints for this error.
    pub fn message(&self) -> (r: String)
        ensures
            self matches StatusError::StatusFail(b) ==> r@ == crate::util::spec_lossy(b@),
            self matches StatusError::StatusUnknown(s) ==> r@ == "Received unknown response status: "@
                + crate::util::spec_dec(s as nat),
    {
        match self {
            StatusError::StatusFail(body) => crate::util::bytes_to_text(body.as_slice()),
            StatusError::StatusUnknown(s) => {
                let mut m = ("Received unknown response status: ").to_owned();
                let num = crate::util::u32_to_string(*s as u32);
                m.append(num.as_str());
                m
            },
        }
    }
}

/// An IPC response sent server -> client.
#[derive(Debug)]
pub struct Response {
    /// Body size in bytes
    size: u16,
    /// Outcome of the IPC command: STATUS_SUCCESS, STATUS_FAIL, or — on a
    /// misbehaving peer — any other byte
    status: u8,
    /// Body bytes, UTF-8 text on the wire
    body: Vec<u8>,
}

impl View for Response {
    type V = Seq<u8>;

    /// A response views as its body; status and size are exposed separately.
    closed spec fn view(&self) -> Seq<u8> {
        self.body@
    }
}

impl Response {
    pub closed spec fn spec_status(&self) -> u8 {
        self.status
    }

    /// The size field is the exact body length and respects the bound.
    pub closed spec fn wf(&self) -> bool {
        self.size == self.body@.len() && self.body@.len() <= 8192
    }

    pub fn body(&self) -> (r: &Vec<u8>)
        ensures
            r@ == self@,
    {
        &self.body
    }

    /// Classify the response status, as the client does to pick its exit
    /// code: success is `Ok`, failure carries the body verbatim, and any
    /// other status byte is reported as unknown, never as success.
    pub fn check(&self) -> (r: Result<(), StatusError>)
        ensures
            r is Ok <==> self.spec_status() == STATUS_SUCCESS,
            self.spec_status() == STATUS_FAIL ==> (r matches Err(StatusError::StatusFail(b))
                && b@ == self@),
            self.spec_status() != STATUS_SUCCESS && self.spec_status() != STATUS_FAIL ==> r
                == Err::<(), StatusError>(StatusError::StatusUnknown(self.spec_status())),
    {
        match Status::of_byte(self.status) {
            Status::Success => Ok(()),
            Status::Fail => Err(StatusError::StatusFail(slice_to_vec(self.body.as_slice()))),
            Status::Unrecognized(s) => Err(StatusError::StatusUnknown(s)),
        }
    }

    /// Build a response, rejecting an oversized body before any framing.
    pub fn from(status: u8, body: Vec<u8>) -> (r: Result<Response, CodecError>)
        ensures
            body@.len() <= 8192 ==> (r matches Ok(m) && m@ == body@ && m.wf() && m.spec_status()
                == status),
            body@.len() > 8192 ==> r == Err::<Response, CodecError>(CodecError::PayloadTooLarge),
    {
        check_body_size(&body)?;
        let size = body.len() as u16;
        Ok(Response { size, status, body })
    }

    /// Frame this response as the bytes to put on the wire.
    pub fn encode(&self) -> (r: Vec<u8>)
        requires
            self.wf(),
        ensures
            r@ == spec_resp_frame(self.spec_status(), self@),
    {
        let mut out: Vec<u8> = Vec::new();
        out.push((self.size / 256) as u8);
        out.push((self.size % 256) as u8);
        out.push(self.status);
        let mut i: usize = 0;
        while i < self.body.len()
            invariant
                i <= self.body@.len(),
                out@ == spec_be_bytes(self.size) + seq![self.status] + self.body@.subrange(
                    0,
                    i as int,
                ),
            decreases self.body@.len() - i,
        {
            out.push(self.body[i]);
            i += 1;
            assert(self.body@.subrange(0, i as int)
                =~= self.body@.subrange(0, i - 1) + seq![self.body@[i - 1]]);
        }
        proof {
            assert(self.body@.subrange(0, self.body@.len() as int) =~= self.body@);
            assert(out@ =~= spec_resp_frame(self.spec_status(), self@));
        }
        out
    }

    /// Unframe one response from the start of `buf`; bytes past the frame
    /// are left for the caller.
    pub fn decode(buf: &[u8]) -> (r: Result<Response, CodecError>)
        ensures
            r matches Ok(m) ==> m.wf() && spec_decode_resp(buf@) == Ok::<
                (u8, Seq<u8>),
                CodecError,
            >((m.spec_status(), m@)),
            r matches Err(e) ==> spec_decode_resp(buf@) == Err::<(u8, Seq<u8>), CodecError>(e),
    {
        if buf.len() < 3 {
            return Err(CodecError::Truncated);
        }
        let size: u16 = (buf[0] as u16) * 256 + (buf[1] as u16);
        let status: u8 = buf[2];
        if size as usize > BUF_SIZE {
            return Err(CodecError::PayloadTooLarge);
        }
        if buf.len() < 3 + size as usize {
            return Err(CodecError::Truncated);
        }
        let body = slice_to_vec(slice_subrange(buf, 3, 3 + size as usize));
        Ok(Response { size, status, body })
    }
}

/// Reading a response frame back gives exactly the status and body that were
/// framed.
pub proof fn lemma_response_round_trip(status: u8, body: Seq<u8>)
    requires
        body.len() <= 8192,
    ensures
        spec_decode_resp(spec_resp_frame(status, body)) == Ok::<(u8, Seq<u8>), CodecError>(
            (status, body),
        ),
{
    let n = body.len() as u16;
    let frame = spec_resp_frame(status, body);
    lemma_fundamental_div_mod(n as int, 256);
    assert(spec_u16_of_be(frame[0], frame[1]) == n);
    assert(frame[2] == status);
    assert(frame.subrange(3, 3 + n as int) =~= body);
}

/// Reading a frame back gives exactly the body that was framed.
pub proof fn lemma_message_round_trip(body: Seq<u8>)
    requires
        body.len() <= 8192,
    ensures
        spec_decode_msg(spec_msg_frame(body)) == Ok::<Seq<u8>, CodecError>(body),
{
    let n = body.len() as u16;
    let frame = spec_msg_frame(body);
    lemma_fundamental_div_mod(n as int, 256);
    assert(spec_u16_of_be(frame[0], frame[1]) == n);
    assert(frame.subrange(2, 2 + n as int) =~= body);
}

} // verus!
