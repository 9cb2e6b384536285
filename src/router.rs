use vstd::prelude::*;
use crate::codec::{decoded_rate, decoded_rates, encode_rate_reply, encode_rates_reply, entries_view};

verus! {

/// Why the transport gave no reply.
#[derive(Clone, Debug, PartialEq, Eq)]
pub enum TransportError {
    /// No reply is set up for this route.
    UnknownRoute(String),
    /// The host could not carry the query out.
    Host(String),
}

/// A service that answers a query, given as request bytes, on a route.
pub trait Transport {
    /// Whether `reply` is an answer that this transport may give to `data` on `route`.
    spec fn answers(&self, route: Seq<char>, data: Seq<u8>, reply: Result<Vec<u8>, TransportError>) -> bool;

    /// Sends `data` on `route` and returns the reply bytes.
    fn query_grpc(&self, route: &String, data: &Vec<u8>) -> (r: Result<Vec<u8>, TransportError>)
        ensures
            self.answers(route@, data@, r),
    ;
}

/// What a mock route answers: a rate reply, a bulk reply, or bytes as given.
#[derive(Clone, Debug)]
pub enum CannedReply {
    Rate(String),
    Rates(Vec<(String, String)>),
    Raw(Vec<u8>),
}

/// The reply set up for `route` in `routes`: the last one registered for it.
pub open spec fn canned_in(routes: Seq<(String, CannedReply)>, route: Seq<char>) -> Option<CannedReply>
    decreases routes.len(),
{
    if routes.len() == 0 {
        None
    } else if routes.last().0@ == route {
        Some(routes.last().1)
    } else {
        canned_in(routes.drop_last(), route)
    }
}

/// Whether `bytes` carry the canned reply `c`: they decode to its price or
/// entries, or are its raw bytes.
pub open spec fn carries(c: CannedReply, bytes: Seq<u8>) -> bool {
    match c {
        CannedReply::Rate(price) => decoded_rate(bytes) == Some(price@),
        CannedReply::Rates(entries) => decoded_rates(bytes) == Some(entries_view(entries@)),
        CannedReply::Raw(raw) => bytes == raw@,
    }
}

/// Whether `r` is what a mock route with `canned` set up answers on `route`.
pub open spec fn answers_canned(
    canned: Option<CannedReply>,
    route: Seq<char>,
    r: Result<Vec<u8>, TransportError>,
) -> bool {
    match canned {
        None => r is Err && r->Err_0 is UnknownRoute && r->Err_0->UnknownRoute_0@ == route,
        Some(c) => r is Ok && carries(c, r->Ok_0@),
    }
}

/// A stand-in transport: a table from route to a canned reply.
pub struct MockRouter {
    routes: Vec<(String, CannedReply)>,
}

impl MockRouter {
    /// The reply set up for `route`, if any.
    pub closed spec fn canned(&self, route: Seq<char>) -> Option<CannedReply> {
        canned_in(self.routes@, route)
    }

    /// A router with no routes.
    pub fn new() -> (r: MockRouter)
        ensures
            forall|route: Seq<char>| r.canned(route) is None,
    {
        MockRouter { routes: Vec::new() }
    }

    /// Sets up `reply` for `route`, replacing what it had; other routes keep theirs.
    pub fn add_route(&mut self, route: String, reply: CannedReply)
        ensures
            final(self).canned(route@) == Some(reply),
            forall|other: Seq<char>| other != route@ ==> final(self).canned(other) == old(self).canned(other),
    {
        let ghost prev = self.routes@;
        self.routes.push((route, reply));
        proof {
            assert(self.routes@.drop_last() =~= prev);
        }
    }

    fn encode_canned(reply: &CannedReply) -> (r: Vec<u8>)
        ensures
            carries(*reply, r@),
    {
        match reply {
            CannedReply::Rate(price) => encode_rate_reply(price),
            CannedReply::Rates(entries) => encode_rates_reply(entries),
            CannedReply::Raw(bytes) => {
                let mut r: Vec<u8> = Vec::new();
                let mut i: usize = 0;
                while i < bytes.len()
                    invariant
                        0 <= i <= bytes@.len(),
                        r@ == bytes@.take(i as int),
                    decreases bytes@.len() - i,
                {
                    r.push(bytes[i]);
                    i += 1;
                    assert(r@ =~= bytes@.take(i as int));
                }
                assert(r@ =~= bytes@);
                r
            },
        }
    }

    /// Answers a query on `route`: the canned reply, encoded, or
    /// `UnknownRoute` where none is set up.
    pub fn respond(&self, route: &String) -> (r: Result<Vec<u8>, TransportError>)
        ensures
            answers_canned(self.canned(route@), route@, r),
    {
        let mut i: usize = self.routes.len();
        assert(self.routes@.take(i as int) =~= self.routes@);
        while i > 0
            invariant
                i <= self.routes@.len(),
                canned_in(self.routes@, route@) == canned_in(self.routes@.take(i as int), route@),
            decreases i,
        {
            assert(self.routes@.take(i as int).drop_last() =~= self.routes@.take(i - 1));
            if self.routes[i - 1].0 == *route {
                return Ok(Self::encode_canned(&self.routes[i - 1].1));
            }
            i -= 1;
        }
        Err(TransportError::UnknownRoute(route.clone()))
    }
}

impl Transport for MockRouter {
    open spec fn answers(&self, route: Seq<char>, data: Seq<u8>, reply: Result<Vec<u8>, TransportError>) -> bool {
        answers_canned(self.canned(route), route, reply)
    }

    fn query_grpc(&self, route: &String, data: &Vec<u8>) -> (r: Result<Vec<u8>, TransportError>) {
        self.respond(route)
    }
}

} // verus!
