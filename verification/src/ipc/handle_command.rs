//! Command routing: one request body in, exactly one response out.
//!
//! The body is matched verbatim against a fixed, flat command table. Anything
//! unmatched gets a failure response naming the command. Building an error
//! response can itself fail only on an oversized body, and that path ends in
//! a statically validated constant response, so the error path always
//! terminates with a well-formed response and never recurses.

use vstd::prelude::*;
use vstd::string::StringSliceAdditionalSpecFns;
use vstd::string::StrSliceExecFns;
use super::message::{CodecError, Response, STATUS_FAIL, STATUS_SUCCESS};

verus! {

/// The one command of the present table.
pub open spec fn spec_status_cmd() -> Seq<u8> {
    "status".spec_bytes()
}

/// The body answering the status command.
pub open spec fn spec_status_ok_body() -> Seq<u8> {
    "Status message".spec_bytes()
}

/// The prefix of the body answering an unmatched command.
pub open spec fn spec_unknown_prefix() -> Seq<u8> {
    "Unknown command: ".spec_bytes()
}

/// The body sent when an unmatched command is too long to echo back.
pub open spec fn spec_oversize_err_body() -> Seq<u8> {
    "Error: message body length exceeds BUF_SIZE (8192)".spec_bytes()
}

/// The body of the error-of-last-resort response.
pub open spec fn spec_prepare_err_body() -> Seq<u8> {
    "Failed to prepare error response.".spec_bytes()
}

/// The body answering a request that could not be decoded.
pub open spec fn spec_decode_err_body() -> Seq<u8> {
    "Failed to decode message.".spec_bytes()
}

/// The routing table as one function: the status and body answering a
/// command body. The status command succeeds with its fixed message; any
/// other body fails, echoed back by name; a body too long to echo gets the
/// fixed size-error text instead.
pub open spec fn spec_route(cmd: Seq<u8>) -> (u8, Seq<u8>) {
    if cmd == spec_status_cmd() {
        (STATUS_SUCCESS, spec_status_ok_body())
    } else if spec_unknown_prefix().len() + cmd.len() <= 8192 {
        (STATUS_FAIL, spec_unknown_prefix() + cmd)
    } else {
        (STATUS_FAIL, spec_oversize_err_body())
    }
}

/// Byte-for-byte equality of two slices.
fn bytes_eq(a: &[u8], b: &[u8]) -> (r: bool)
    ensures
        r <==> a@ == b@,
{
    if a.len() != b.len() {
        return false;
    }
    let mut i: usize = 0;
    while i < a.len()
        invariant
            a@.len() == b@.len(),
            i <= a@.len(),
            forall|k: int| 0 <= k < i ==> a@[k] == b@[k],
        decreases a@.len() - i,
    {
        if a[i] != b[i] {
            return false;
        }
        i += 1;
    }
    proof {
        assert(a@ =~= b@);
    }
    true
}

/// The bytes of an ASCII string literal, with their view exposed.
fn ascii_lit_bytes(s: &str) -> (r: Vec<u8>)
    requires
        vstd::utf8::is_ascii_chars(s@),
    ensures
        r@ == s.spec_bytes(),
        r@.len() == s@.len(),
{
    proof {
        vstd::string::is_ascii_spec_bytes(s);
    }
    s.as_bytes_vec()
}

/// The fixed response the dispatcher sends when a request fails to decode;
/// validated here once, so the dispatcher holds it ready before any
/// connection is accepted.
pub fn decode_error_response() -> (resp: Response)
    ensures
        resp.wf(),
        resp.spec_status() == STATUS_FAIL,
        resp@ == spec_decode_err_body(),
{
    proof {
        reveal_strlit("Failed to decode message.");
        assert(vstd::utf8::is_ascii_chars("Failed to decode message."@));
    }
    let body = ascii_lit_bytes("Failed to decode message.");
    match Response::from(STATUS_FAIL, body) {
        Ok(resp) => resp,
        Err(_) => {
            proof {
                assert(false);
            }
            unreached()
        },
    }
}

/// The error-of-last-resort: a response prepared without looking at any
/// input, so preparing an error about a failure can never itself fail.
pub fn prepare_error_response() -> (resp: Response)
    ensures
        resp.wf(),
        resp.spec_status() == STATUS_FAIL,
        resp@ == spec_prepare_err_body(),
{
    proof {
        reveal_strlit("Failed to prepare error response.");
        assert(vstd::utf8::is_ascii_chars("Failed to prepare error response."@));
    }
    let body = ascii_lit_bytes("Failed to prepare error response.");
    match Response::from(STATUS_FAIL, body) {
        Ok(resp) => resp,
        Err(_) => {
            proof {
                assert(false);
            }
            unreached()
        },
    }
}

/// Answer an error that stopped a response from being built; if even this
/// text cannot be framed, fall back to the constant response.
fn send_error(_err: CodecError) -> (resp: Response)
    ensures
        resp.wf(),
        resp.spec_status() == STATUS_FAIL,
        resp@ == spec_oversize_err_body(),
{
    proof {
        reveal_strlit("Error: message body length exceeds BUF_SIZE (8192)");
        assert(vstd::utf8::is_ascii_chars(
            "Error: message body length exceeds BUF_SIZE (8192)"@,
        ));
    }
    let body = ascii_lit_bytes("Error: message body length exceeds BUF_SIZE (8192)");
    match Response::from(STATUS_FAIL, body) {
        Ok(resp) => resp,
        Err(_) => prepare_error_response(),
    }
}

/// Handle one command body and compose the one response to send back: the
/// status command succeeds with its fixed message; any other body fails,
/// echoed back by name; a body too long to echo gets the fixed size-error
/// text. Always returns a well-formed response.
pub fn handle_command(cmd: &[u8]) -> (resp: Response)
    ensures
        resp.wf(),
        resp.spec_status() == spec_route(cmd@).0,
        resp@ == spec_route(cmd@).1,
{
    proof {
        reveal_strlit("status");
        assert(vstd::utf8::is_ascii_chars("status"@));
        reveal_strlit("Status message");
        assert(vstd::utf8::is_ascii_chars("Status message"@));
        reveal_strlit("Unknown command: ");
        assert(vstd::utf8::is_ascii_chars("Unknown command: "@));
    }
    let status_cmd = ascii_lit_bytes("status");
    let r = if bytes_eq(cmd, status_cmd.as_slice()) {
        let body = ascii_lit_bytes("Status message");
        Response::from(STATUS_SUCCESS, body)
    } else {
        let mut body = ascii_lit_bytes("Unknown command: ");
        let ghost prefix = body@;
        let mut i: usize = 0;
        while i < cmd.len()
            invariant
                i <= cmd@.len(),
                body@ == prefix + cmd@.subrange(0, i as int),
            decreases cmd@.len() - i,
        {
            body.push(cmd[i]);
            i += 1;
            assert(cmd@.subrange(0, i as int) =~= cmd@.subrange(0, i - 1) + seq![cmd@[i - 1]]);
        }
        proof {
            assert(cmd@.subrange(0, cmd@.len() as int) =~= cmd@);
        }
        Response::from(STATUS_FAIL, body)
    };
    match r {
        Ok(resp) => resp,
        Err(e) => send_error(e),
    }
}

/// A whole exchange on the wire: any command body within the bound, framed
/// as a request, decodes back to itself on the daemon side; and the response
/// the routing table answers it with always fits a frame, which the client
/// decodes back to exactly that status and body.
pub proof fn lemma_exchange(body: Seq<u8>)
    requires
        body.len() <= 8192,
    ensures
        super::message::spec_decode_msg(super::message::spec_msg_frame(body)) == Ok::<
            Seq<u8>,
            super::message::CodecError,
        >(body),
        spec_route(body).1.len() <= 8192,
        super::message::spec_decode_resp(
            super::message::spec_resp_frame(spec_route(body).0, spec_route(body).1),
        ) == Ok::<(u8, Seq<u8>), super::message::CodecError>(
            (spec_route(body).0, spec_route(body).1),
        ),
{
    reveal_strlit("Status message");
    assert(vstd::utf8::is_ascii_chars("Status message"@));
    vstd::string::is_ascii_spec_bytes("Status message");
    reveal_strlit("Error: message body length exceeds BUF_SIZE (8192)");
    assert(vstd::utf8::is_ascii_chars("Error: message body length exceeds BUF_SIZE (8192)"@));
    vstd::string::is_ascii_spec_bytes("Error: message body length exceeds BUF_SIZE (8192)");
    super::message::lemma_message_round_trip(body);
    super::message::lemma_response_round_trip(spec_route(body).0, spec_route(body).1);
}

/// One connection's whole decision, bytes to bytes: decode the request frame
/// read from the stream, route its body, and frame the one response to send
/// back. A frame that does not decode is answered with the fixed
/// decode-failure response. Always produces exactly one response frame.
pub fn serve_request(frame: &[u8]) -> (out: Vec<u8>)
    ensures
        super::message::spec_decode_msg(frame@) matches Ok(body) ==> out@
            == super::message::spec_resp_frame(spec_route(body).0, spec_route(body).1),
        super::message::spec_decode_msg(frame@) is Err ==> out@
            == super::message::spec_resp_frame(STATUS_FAIL, spec_decode_err_body()),
{
    match super::message::Message::decode(frame) {
        Ok(msg) => handle_command(msg.body().as_slice()).encode(),
        Err(_) => decode_error_response().encode(),
    }
}

} // verus!
