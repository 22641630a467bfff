//! The per-connection decision.
//!
//! A connection handler reads the request line, routes it, resolves
//! the content key and writes the response. Everything in that chain
//! that is not I/O is decided here: given the extracted line, the route
//! table and the content store, `plan_response` says exactly what the
//! handler must do — write which bytes after which delay, or close the
//! connection without a response. The surrounding program performs the
//! delay and the write.

use vstd::prelude::*;

use crate::content::{store_lookup, ContentStore};
use crate::response::{build_response, response_bytes, Status};
use crate::route::{decision_for, Decision, Router};

verus! {

/// What a connection handler must do after routing: either suspend for
/// the artificial delay and then write the response bytes, or — when
/// the router selected a content key the store cannot resolve — close
/// the connection without writing anything.
pub enum Outcome {
    Respond { delay_ms: u64, response: Vec<u8> },
    CloseWithoutResponse,
}

/// The contract tying an outcome to the inputs that produced it: the
/// routing decision for `line` selects a status, key and delay; a key
/// the store resolves yields the wire-format response under that
/// delay, and an unresolvable key yields a close without response.
pub open spec fn outcome_matches(
    o: Outcome,
    router: Router,
    store: ContentStore,
    line: Option<Seq<u8>>,
) -> bool {
    let d = decision_for(router, line);
    match store_lookup(store.entries@, d.1) {
        Option::Some(body) => (o matches Outcome::Respond { delay_ms, response } && delay_ms
            == d.2 && response@ == response_bytes(d.0, body)),
        Option::None => o is CloseWithoutResponse,
    }
}

/// Resolve a routing decision against the content store and assemble
/// the response. The delay carried by the decision is passed through
/// untouched; the store is not consulted until after routing, so this
/// is what a handler runs once its artificial delay has elapsed.
pub fn finish_response(store: &ContentStore, d: Decision) -> (o: Outcome)
    ensures
        match store_lookup(store.entries@, d.key@) {
            Option::Some(body) => (o matches Outcome::Respond { delay_ms, response } && delay_ms
                == d.delay_ms && response@ == response_bytes(d.status, body)),
            Option::None => o is CloseWithoutResponse,
        },
{
    match store.lookup(&d.key) {
        Some(body) => Outcome::Respond {
            delay_ms: d.delay_ms,
            response: build_response(d.status, &body),
        },
        None => Outcome::CloseWithoutResponse,
    }
}

/// The whole per-connection decision: route the extracted request line
/// (or its absence) and resolve the resulting content key. The
/// returned outcome is a function of the route table, the store and
/// the line alone.
pub fn plan_response(router: &Router, store: &ContentStore, line: &Option<Vec<u8>>) -> (o: Outcome)
    ensures
        outcome_matches(o, *router, *store, crate::opt_bytes_view(*line)),
{
    let d = router.route(line);
    finish_response(store, d)
}

/// Round trip: with the route table and the content store fixed, any
/// two outcomes for the same request line agree — same variant, same
/// delay, byte-identical response.
pub proof fn lemma_repeated_requests_identical(
    o1: Outcome,
    o2: Outcome,
    router: Router,
    store: ContentStore,
    line: Option<Seq<u8>>,
)
    requires
        outcome_matches(o1, router, store, line),
        outcome_matches(o2, router, store, line),
    ensures
        o1 is Respond <==> o2 is Respond,
        o1 matches Outcome::Respond { delay_ms: d1, response: r1 } ==> (o2 matches Outcome::Respond {
            delay_ms: d2,
            response: r2,
        } && d1 == d2 && r1@ == r2@),
{
}

/// For a request line that exactly matches a registered route — the
/// earliest such route, at index `i` — whose content key the store
/// resolves, the handler writes that route's configured status line
/// over the stored body, after that route's configured delay.
pub proof fn lemma_matched_route_response(
    o: Outcome,
    router: Router,
    store: ContentStore,
    l: Seq<u8>,
    i: int,
    body: Seq<u8>,
)
    requires
        outcome_matches(o, router, store, Option::Some(l)),
        0 <= i < router.routes@.len(),
        router.routes@[i].line@ == l,
        forall|j: int| 0 <= j < i ==> router.routes@[j].line@ != l,
        store_lookup(store.entries@, router.routes@[i].key@) == Option::Some(body),
    ensures
        o matches Outcome::Respond { delay_ms, response } && delay_ms
            == router.routes@[i].delay_ms && response@ == response_bytes(
            router.routes@[i].status,
            body,
        ),
{
    crate::route::lemma_matched_route_decision(router, l, i);
}

/// For a request line that matches no registered route — or for an
/// absent line — when the store resolves the not-found key, the
/// handler writes the not-found status line over the default
/// not-found body, with no delay.
pub proof fn lemma_unmatched_line_default_response(
    o: Outcome,
    router: Router,
    store: ContentStore,
    line: Option<Seq<u8>>,
    body: Seq<u8>,
)
    requires
        outcome_matches(o, router, store, line),
        line matches Option::Some(l) ==> forall|j: int|
            0 <= j < router.routes@.len() ==> router.routes@[j].line@ != l,
        store_lookup(store.entries@, router.not_found_key@) == Option::Some(body),
    ensures
        o matches Outcome::Respond { delay_ms, response } && delay_ms == 0 && response@
            == response_bytes(Status::NotFound, body),
{
    crate::route::lemma_unmatched_line_default_decision(router, line);
}

} // verus!
