//! A minimal network responder library.
//!
//! The library holds the verified core of a small connection-handling
//! engine: extracting the first line of a request from the chunks a
//! stream yields, mapping that line to a canned response through an
//! exact-match route table, resolving a content key against an
//! in-memory content store, and assembling the wire-format response.
//! Binding sockets, accepting connections, reading, writing and the
//! artificial route delay are performed by the surrounding program,
//! which drives these functions.

pub mod content;
pub mod handler;
pub mod request;
pub mod response;
pub mod route;

pub use content::ContentStore;
pub use handler::{plan_response, Outcome};
pub use request::RequestLineReader;
pub use response::{build_response, Status};
pub use route::{Decision, Route, Router};

use vstd::prelude::*;

verus! {

/// An optional byte vector, seen as an optional byte sequence.
pub open spec fn opt_bytes_view(o: Option<Vec<u8>>) -> Option<Seq<u8>> {
    match o {
        Option::Some(v) => Option::Some(v@),
        Option::None => Option::None,
    }
}

/// The externally supplied listening address: a host string and a
/// 16-bit port. The surrounding program binds a socket from it.
#[derive(Debug)]
pub struct ServerConfig {
    pub host: String,
    pub port: u16,
}

} // verus!
