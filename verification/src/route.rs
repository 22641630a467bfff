//! Routing.
//!
//! The route table maps an exact request line to a response recipe: a
//! status, a content key, and an optional artificial delay. Matching is
//! byte-for-byte and case-sensitive; a line that matches no registered
//! route, or an absent line, falls through to the single not-found
//! entry. The table is built once at startup and never changed.

use vstd::prelude::*;
use vstd::string::StrSliceExecFns;
use vstd::string::StringSliceAdditionalSpecFns;

use crate::response::Status;

verus! {

/// One registered route: the exact request line it matches and the
/// response recipe it selects. A `delay_ms` of zero means no
/// artificial delay.
pub struct Route {
    pub line: Vec<u8>,
    pub status: Status,
    pub key: Vec<u8>,
    pub delay_ms: u64,
}

/// What the router decided for one request: the status of the
/// response, the content key to resolve, and the artificial delay the
/// handler must observe before writing.
pub struct Decision {
    pub status: Status,
    pub key: Vec<u8>,
    pub delay_ms: u64,
}

/// The route table plus the content key served when nothing matches.
pub struct Router {
    pub routes: Vec<Route>,
    pub not_found_key: Vec<u8>,
}

/// The earliest registered route whose line equals `l`, if any.
pub open spec fn find_route(routes: Seq<Route>, l: Seq<u8>) -> Option<Route>
    decreases routes.len(),
{
    if routes.len() == 0 {
        Option::None
    } else if routes[0].line@ == l {
        Option::Some(routes[0])
    } else {
        find_route(routes.drop_first(), l)
    }
}

/// The routing decision for a request line, as a mathematical value:
/// (status, content key, delay). An absent or unmatched line selects
/// the not-found status, the router's not-found key, and no delay.
pub open spec fn decision_for(r: Router, line: Option<Seq<u8>>) -> (Status, Seq<u8>, u64) {
    match line {
        Option::Some(l) => match find_route(r.routes@, l) {
            Option::Some(rt) => (rt.status, rt.key@, rt.delay_ms),
            Option::None => (Status::NotFound, r.not_found_key@, 0u64),
        },
        Option::None => (Status::NotFound, r.not_found_key@, 0u64),
    }
}

/// Byte-for-byte equality of two byte vectors.
pub fn bytes_eq(a: &Vec<u8>, b: &Vec<u8>) -> (r: bool)
    ensures
        r == (a@ == b@),
{
    if a.len() != b.len() {
        return false;
    }
    let mut i: usize = 0;
    while i < a.len()
        invariant
            a@.len() == b@.len(),
            0 <= i <= a@.len(),
            forall|j: int| 0 <= j < i ==> a@[j] == b@[j],
        decreases a@.len() - i,
    {
        if a[i] != b[i] {
            return false;
        }
        i += 1;
    }
    proof {
        assert(a@ =~= b@);
    }
    true
}

/// A copy of a byte vector.
pub fn copy_bytes(v: &Vec<u8>) -> (r: Vec<u8>)
    ensures
        r@ == v@,
{
    let mut r: Vec<u8> = Vec::new();
    let mut i: usize = 0;
    while i < v.len()
        invariant
            0 <= i <= v@.len(),
            r@ =~= v@.subrange(0, i as int),
        decreases v@.len() - i,
    {
        r.push(v[i]);
        proof {
            assert(r@ =~= v@.subrange(0, i + 1));
        }
        i += 1;
    }
    proof {
        assert(r@ =~= v@);
    }
    r
}

proof fn lemma_find_route_at(routes: Seq<Route>, l: Seq<u8>, i: int)
    requires
        0 <= i < routes.len(),
        routes[i].line@ == l,
        forall|j: int| 0 <= j < i ==> routes[j].line@ != l,
    ensures
        find_route(routes, l) == Option::Some(routes[i]),
    decreases i,
{
    if i > 0 {
        let t = routes.drop_first();
        assert(forall|j: int| 0 <= j < i - 1 ==> #[trigger] t[j].line@ != l);
        lemma_find_route_at(t, l, i - 1);
        assert(t[i - 1] == routes[i]);
    }
}

proof fn lemma_find_route_none(routes: Seq<Route>, l: Seq<u8>)
    requires
        forall|j: int| 0 <= j < routes.len() ==> routes[j].line@ != l,
    ensures
        find_route(routes, l) is None,
    decreases routes.len(),
{
    if routes.len() > 0 {
        let t = routes.drop_first();
        assert(forall|j: int| 0 <= j < t.len() ==> #[trigger] t[j].line@ != l);
        lemma_find_route_none(t, l);
    }
}

impl Router {
    /// An empty route table over the given not-found content key.
    pub fn new(not_found_key: Vec<u8>) -> (r: Router)
        ensures
            r.routes@.len() == 0,
            r.not_found_key@ == not_found_key@,
    {
        Router { routes: Vec::new(), not_found_key }
    }

    /// Append one route to the table. Registration is a startup-time
    /// operation; the table is immutable afterwards.
    pub fn register(&mut self, line: Vec<u8>, status: Status, key: Vec<u8>, delay_ms: u64)
        ensures
            final(self).not_found_key == old(self).not_found_key,
            final(self).routes@.len() == old(self).routes@.len() + 1,
            forall|i: int|
                0 <= i < old(self).routes@.len() ==> final(self).routes@[i] == old(
                    self,
                ).routes@[i],
            final(self).routes@.last().line@ == line@,
            final(self).routes@.last().status == status,
            final(self).routes@.last().key@ == key@,
            final(self).routes@.last().delay_ms == delay_ms,
    {
        self.routes.push(Route { line, status, key, delay_ms });
    }

    /// The default decision: not-found status, the router's not-found
    /// key, no delay.
    fn default_decision(&self) -> (d: Decision)
        ensures
            d.status == Status::NotFound,
            d.key@ == self.not_found_key@,
            d.delay_ms == 0,
    {
        Decision { status: Status::NotFound, key: copy_bytes(&self.not_found_key), delay_ms: 0 }
    }

    /// Map an extracted request line — or its absence — to a routing
    /// decision by exact byte-for-byte match against the registered
    /// routes, earliest registration first.
    pub fn route(&self, line: &Option<Vec<u8>>) -> (d: Decision)
        ensures
            ({
                let dd = decision_for(*self, crate::opt_bytes_view(*line));
                d.status == dd.0 && d.key@ == dd.1 && d.delay_ms == dd.2
            }),
    {
        match line {
            Option::None => self.default_decision(),
            Option::Some(l) => {
                let n = self.routes.len();
                let mut i: usize = 0;
                while i < n
                    invariant
                        n == self.routes@.len(),
                        0 <= i <= n,
                        crate::opt_bytes_view(*line) == Option::Some(l@),
                        forall|j: int| 0 <= j < i ==> #[trigger] self.routes@[j].line@ != l@,
                    decreases n - i,
                {
                    if bytes_eq(&self.routes[i].line, l) {
                        proof {
                            lemma_find_route_at(self.routes@, l@, i as int);
                        }
                        let rt = &self.routes[i];
                        return Decision {
                            status: rt.status,
                            key: copy_bytes(&rt.key),
                            delay_ms: rt.delay_ms,
                        };
                    }
                    i += 1;
                }
                proof {
                    lemma_find_route_none(self.routes@, l@);
                }
                self.default_decision()
            },
        }
    }

    /// The responder's standard table: the hello page, the
    /// artificially delayed page, and the not-found fallback. The
    /// delay duration is a configuration parameter rather than a fixed
    /// constant.
    pub fn with_default_routes(delay_ms: u64) -> (r: Router)
        ensures
            r.routes@.len() == 2,
            r.routes@[0].line@ == "GET /hello HTTP/1.1".spec_bytes(),
            r.routes@[0].status == Status::Success,
            r.routes@[0].key@ == "html/hello.html".spec_bytes(),
            r.routes@[0].delay_ms == 0,
            r.routes@[1].line@ == "GET /sleep HTTP/1.1".spec_bytes(),
            r.routes@[1].status == Status::Success,
            r.routes@[1].key@ == "html/sleep.html".spec_bytes(),
            r.routes@[1].delay_ms == delay_ms,
            r.not_found_key@ == "html/404.html".spec_bytes(),
    {
        let mut r = Router::new("html/404.html".as_bytes_vec());
        r.register(
            "GET /hello HTTP/1.1".as_bytes_vec(),
            Status::Success,
            "html/hello.html".as_bytes_vec(),
            0,
        );
        r.register(
            "GET /sleep HTTP/1.1".as_bytes_vec(),
            Status::Success,
            "html/sleep.html".as_bytes_vec(),
            delay_ms,
        );
        r
    }
}

/// For a request line that exactly matches a registered route — the
/// earliest such route, at index `i` — the routing decision carries
/// that route's configured status, content key and delay.
pub proof fn lemma_matched_route_decision(r: Router, l: Seq<u8>, i: int)
    requires
        0 <= i < r.routes@.len(),
        r.routes@[i].line@ == l,
        forall|j: int| 0 <= j < i ==> r.routes@[j].line@ != l,
    ensures
        decision_for(r, Option::Some(l)) == (
            r.routes@[i].status,
            r.routes@[i].key@,
            r.routes@[i].delay_ms,
        ),
{
    lemma_find_route_at(r.routes@, l, i);
}

/// For a request line that matches no registered route — or for an
/// absent line — the routing decision is the default entry: the
/// not-found status, the router's not-found key, and no delay.
pub proof fn lemma_unmatched_line_default_decision(r: Router, line: Option<Seq<u8>>)
    requires
        line matches Option::Some(l) ==> forall|j: int|
            0 <= j < r.routes@.len() ==> r.routes@[j].line@ != l,
    ensures
        decision_for(r, line) == (Status::NotFound, r.not_found_key@, 0u64),
{
    match line {
        Option::Some(l) => {
            lemma_find_route_none(r.routes@, l);
        },
        Option::None => {},
    }
}

} // verus!
