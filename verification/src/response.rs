//! Response assembly.
//!
//! A response on the wire is a status line, a blank line, and the body
//! bytes: `"<STATUS-LINE>\r\n\r\n<BODY>"`. The status line is always
//! one of a small fixed set.

use vstd::prelude::*;
use vstd::string::StrSliceExecFns;
use vstd::string::StringSliceAdditionalSpecFns;

verus! {

/// The status carried by a response: one of the fixed set of valid
/// status lines.
#[derive(Clone, Copy, Debug, PartialEq, Eq, Structural)]
pub enum Status {
    Success,
    NotFound,
}

/// The bytes of the status line for a status, without its terminator.
pub open spec fn status_line_bytes(s: Status) -> Seq<u8> {
    match s {
        Status::Success => "HTTP/1.1 200 OK".spec_bytes(),
        Status::NotFound => "HTTP/1.1 404 NOT FOUND".spec_bytes(),
    }
}

/// The carriage-return/line-feed pair that ends the status line,
/// followed by the blank line that ends the header section.
pub open spec fn header_terminator_bytes() -> Seq<u8> {
    "\r\n\r\n".spec_bytes()
}

/// The full wire form of a response: status line, blank line, body.
pub open spec fn response_bytes(s: Status, body: Seq<u8>) -> Seq<u8> {
    status_line_bytes(s) + header_terminator_bytes() + body
}

/// Build the wire form of a response from a status and a body.
pub fn build_response(status: Status, body: &Vec<u8>) -> (r: Vec<u8>)
    ensures
        r@ == response_bytes(status, body@),
{
    let mut r = match status {
        Status::Success => "HTTP/1.1 200 OK".as_bytes_vec(),
        Status::NotFound => "HTTP/1.1 404 NOT FOUND".as_bytes_vec(),
    };
    let mut terminator = "\r\n\r\n".as_bytes_vec();
    r.append(&mut terminator);
    let ghost head = r@;
    let mut i: usize = 0;
    while i < body.len()
        invariant
            0 <= i <= body@.len(),
            r@ =~= head + body@.subrange(0, i as int),
        decreases body@.len() - i,
    {
        r.push(body[i]);
        proof {
            assert(r@ =~= head + body@.subrange(0, i + 1));
        }
        i += 1;
    }
    proof {
        assert(body@.subrange(0, body@.len() as int) =~= body@);
        assert(r@ =~= response_bytes(status, body@));
    }
    r
}

} // verus!
