use vstd::prelude::*;
use crate::codec::{
    decode_rate_reply, decode_rates_reply, decoded_rate, decoded_rates, encode_rate_request,
    encode_rates_request, entries_view, rate_request_bytes, MalformedReply,
};
use crate::oracle::{query_kind, GetExchangeRateResponse, GetExchangeRatesResponse, QueryMsg};
use crate::rates::{aggregate, fold_rates, lemma_aggregate_two};
use crate::route::{resolve_route, route_spec, QueryKind};
use crate::router::{CannedReply, MockRouter, Transport, TransportError};

verus! {

/// Why a query through the gateway failed.
#[derive(Clone, Debug, PartialEq, Eq)]
pub enum GatewayError {
    /// The transport gave no reply.
    Transport(TransportError),
    /// The reply did not decode as the expected message.
    Decode(MalformedReply),
}

/// What a single-rate query returns once the transport gave `reply`.
pub open spec fn rate_reply_outcome(
    reply: Result<Vec<u8>, TransportError>,
    r: Result<GetExchangeRateResponse, GatewayError>,
) -> bool {
    match reply {
        Err(e) => r == Err::<GetExchangeRateResponse, GatewayError>(GatewayError::Transport(e)),
        Ok(bytes) => match decoded_rate(bytes@) {
            Some(price) => r is Ok && r->Ok_0.price@ == price,
            None => r == Err::<GetExchangeRateResponse, GatewayError>(
                GatewayError::Decode(MalformedReply {}),
            ),
        },
    }
}

/// What the bulk query returns once the transport gave `reply`.
pub open spec fn rates_reply_outcome(
    reply: Result<Vec<u8>, TransportError>,
    r: Result<GetExchangeRatesResponse, GatewayError>,
) -> bool {
    match reply {
        Err(e) => r == Err::<GetExchangeRatesResponse, GatewayError>(GatewayError::Transport(e)),
        Ok(bytes) => match decoded_rates(bytes@) {
            Some(entries) => r is Ok && r->Ok_0.rates.wf() && r->Ok_0.rates@ == fold_rates(entries),
            None => r == Err::<GetExchangeRatesResponse, GatewayError>(
                GatewayError::Decode(MalformedReply {}),
            ),
        },
    }
}

/// What a single-rate query of `kind` for `pair` through `t` returns: the
/// outcome of some reply that `t` may give to the encoded request on the
/// kind's route.
pub open spec fn rate_query_outcome<T: Transport>(
    t: &T,
    kind: QueryKind,
    pair: Seq<char>,
    r: Result<GetExchangeRateResponse, GatewayError>,
) -> bool {
    exists|reply: Result<Vec<u8>, TransportError>|
        #[trigger] t.answers(route_spec(kind), rate_request_bytes(pair), reply)
            && rate_reply_outcome(reply, r)
}

/// What the bulk query through `t` returns: the outcome of some reply that
/// `t` may give to the empty request on the bulk route.
pub open spec fn rates_query_outcome<T: Transport>(
    t: &T,
    r: Result<GetExchangeRatesResponse, GatewayError>,
) -> bool {
    exists|reply: Result<Vec<u8>, TransportError>|
        #[trigger] t.answers(route_spec(QueryKind::ExchangeRates), Seq::empty(), reply)
            && rates_reply_outcome(reply, r)
}

/// Turns the transport's reply to a single-rate query into the response.
pub fn finish_rate_query(reply: Result<Vec<u8>, TransportError>) -> (r: Result<
    GetExchangeRateResponse,
    GatewayError,
>)
    ensures
        rate_reply_outcome(reply, r),
{
    match reply {
        Err(e) => Err(GatewayError::Transport(e)),
        Ok(bytes) => match decode_rate_reply(&bytes) {
            Ok(price) => Ok(GetExchangeRateResponse { price }),
            Err(e) => Err(GatewayError::Decode(e)),
        },
    }
}

/// Turns the transport's reply to the bulk query into the response.
pub fn finish_rates_query(reply: Result<Vec<u8>, TransportError>) -> (r: Result<
    GetExchangeRatesResponse,
    GatewayError,
>)
    ensures
        rates_reply_outcome(reply, r),
{
    match reply {
        Err(e) => Err(GatewayError::Transport(e)),
        Ok(bytes) => match decode_rates_reply(&bytes) {
            Ok(entries) => Ok(GetExchangeRatesResponse { rates: aggregate(&entries) }),
            Err(e) => Err(GatewayError::Decode(e)),
        },
    }
}

fn fetch_rate<T: Transport>(transport: &T, kind: QueryKind, pair: String) -> (r: Result<
    GetExchangeRateResponse,
    GatewayError,
>)
    ensures
        rate_query_outcome(transport, kind, pair@, r),
{
    let route = resolve_route(kind);
    let data = encode_rate_request(&pair);
    let reply = transport.query_grpc(&route, &data);
    let ghost given = reply;
    let r = finish_rate_query(reply);
    assert(transport.answers(route_spec(kind), rate_request_bytes(pair@), given)
        && rate_reply_outcome(given, r));
    r
}

/// Queries the oracle through `transport` for the exchange rate of `pair`.
pub fn query_exchange_rate<T: Transport>(transport: &T, pair: String) -> (r: Result<
    GetExchangeRateResponse,
    GatewayError,
>)
    ensures
        rate_query_outcome(transport, QueryKind::ExchangeRate, pair@, r),
{
    fetch_rate(transport, QueryKind::ExchangeRate, pair)
}

/// Queries the oracle through `transport` for the time-weighted exchange
/// rate of `pair`.
pub fn query_exchange_rate_twap<T: Transport>(transport: &T, pair: String) -> (r: Result<
    GetExchangeRateResponse,
    GatewayError,
>)
    ensures
        rate_query_outcome(transport, QueryKind::ExchangeRateTwap, pair@, r),
{
    fetch_rate(transport, QueryKind::ExchangeRateTwap, pair)
}

/// Queries the oracle through `transport` for every exchange rate, folded
/// into a mapping from pair to price.
pub fn query_exchange_rates<T: Transport>(transport: &T) -> (r: Result<
    GetExchangeRatesResponse,
    GatewayError,
>)
    ensures
        rates_query_outcome(transport, r),
{
    let route = resolve_route(QueryKind::ExchangeRates);
    let data = encode_rates_request();
    let reply = transport.query_grpc(&route, &data);
    let ghost given = reply;
    let r = finish_rates_query(reply);
    assert(transport.answers(route_spec(QueryKind::ExchangeRates), Seq::empty(), given)
        && rates_reply_outcome(given, r));
    r
}

/// The typed answer to one query message.
pub enum QueryResponse {
    Rate(GetExchangeRateResponse),
    Rates(GetExchangeRatesResponse),
}

/// `r` read as the result of a single-rate query.
pub open spec fn as_rate_result(r: Result<QueryResponse, GatewayError>) -> Result<
    GetExchangeRateResponse,
    GatewayError,
> {
    match r {
        Ok(QueryResponse::Rate(x)) => Ok(x),
        Ok(QueryResponse::Rates(_)) => Err(GatewayError::Decode(MalformedReply {})),
        Err(e) => Err(e),
    }
}

/// `r` read as the result of the bulk query.
pub open spec fn as_rates_result(r: Result<QueryResponse, GatewayError>) -> Result<
    GetExchangeRatesResponse,
    GatewayError,
> {
    match r {
        Ok(QueryResponse::Rates(x)) => Ok(x),
        Ok(QueryResponse::Rate(_)) => Err(GatewayError::Decode(MalformedReply {})),
        Err(e) => Err(e),
    }
}

/// The request bytes that a query message goes out as.
pub open spec fn request_bytes(msg: QueryMsg) -> Seq<u8> {
    match msg {
        QueryMsg::GetExchangeRate { pair } => rate_request_bytes(pair@),
        QueryMsg::GetExchangeRateTwap { pair } => rate_request_bytes(pair@),
        QueryMsg::GetExchangeRates {} => Seq::empty(),
    }
}

/// What a query message returns once the transport gave `reply`.
pub open spec fn query_reply_outcome(
    msg: QueryMsg,
    reply: Result<Vec<u8>, TransportError>,
    r: Result<QueryResponse, GatewayError>,
) -> bool {
    match msg {
        QueryMsg::GetExchangeRates {} => (r is Ok ==> r->Ok_0 is Rates) && rates_reply_outcome(
            reply,
            as_rates_result(r),
        ),
        _ => (r is Ok ==> r->Ok_0 is Rate) && rate_reply_outcome(reply, as_rate_result(r)),
    }
}

/// The route and the encoded request that `msg` goes out as.
pub fn prepare_query(msg: &QueryMsg) -> (r: (String, Vec<u8>))
    ensures
        r.0@ == route_spec(query_kind(*msg)),
        r.1@ == request_bytes(*msg),
{
    let route = resolve_route(msg.kind());
    let data = match msg {
        QueryMsg::GetExchangeRate { pair } => encode_rate_request(pair),
        QueryMsg::GetExchangeRateTwap { pair } => encode_rate_request(pair),
        QueryMsg::GetExchangeRates {} => encode_rates_request(),
    };
    (route, data)
}

/// Turns the transport's reply to `msg` into the typed response.
pub fn finish_query(msg: &QueryMsg, reply: Result<Vec<u8>, TransportError>) -> (r: Result<
    QueryResponse,
    GatewayError,
>)
    ensures
        query_reply_outcome(*msg, reply, r),
{
    match msg {
        QueryMsg::GetExchangeRates {} => match finish_rates_query(reply) {
            Ok(x) => Ok(QueryResponse::Rates(x)),
            Err(e) => Err(e),
        },
        _ => match finish_rate_query(reply) {
            Ok(x) => Ok(QueryResponse::Rate(x)),
            Err(e) => Err(e),
        },
    }
}

/// Answers a query message through `transport`: the outcome of some reply
/// that `transport` may give to the message's request on its route.
pub fn query<T: Transport>(transport: &T, msg: QueryMsg) -> (r: Result<QueryResponse, GatewayError>)
    ensures
        exists|reply: Result<Vec<u8>, TransportError>|
            #[trigger] transport.answers(route_spec(query_kind(msg)), request_bytes(msg), reply)
                && query_reply_outcome(msg, reply, r),
{
    let (route, data) = prepare_query(&msg);
    let reply = transport.query_grpc(&route, &data);
    let ghost given = reply;
    let r = finish_query(&msg, reply);
    assert(transport.answers(route_spec(query_kind(msg)), request_bytes(msg), given)
        && query_reply_outcome(msg, given, r));
    r
}

/// Against a router whose route for a single-rate kind holds a canned price,
/// the query returns that price, character for character.
pub proof fn lemma_rate_query_returns_canned_price(
    router: MockRouter,
    kind: QueryKind,
    pair: Seq<char>,
    price: String,
    r: Result<GetExchangeRateResponse, GatewayError>,
)
    requires
        router.canned(route_spec(kind)) == Some(CannedReply::Rate(price)),
        rate_query_outcome(&router, kind, pair, r),
    ensures
        r is Ok,
        r->Ok_0.price@ == price@,
{
    let reply = choose|reply: Result<Vec<u8>, TransportError>|
        #[trigger] router.answers(route_spec(kind), rate_request_bytes(pair), reply)
            && rate_reply_outcome(reply, r);
    assert(reply is Ok && decoded_rate(reply->Ok_0@) == Some(price@));
}

/// Against a router whose single-rate route holds bytes that do not decode,
/// the query fails with a decode error and returns no price.
pub proof fn lemma_rate_query_rejects_malformed_reply(
    router: MockRouter,
    kind: QueryKind,
    pair: Seq<char>,
    bytes: Vec<u8>,
    r: Result<GetExchangeRateResponse, GatewayError>,
)
    requires
        router.canned(route_spec(kind)) == Some(CannedReply::Raw(bytes)),
        decoded_rate(bytes@) is None,
        rate_query_outcome(&router, kind, pair, r),
    ensures
        r == Err::<GetExchangeRateResponse, GatewayError>(GatewayError::Decode(MalformedReply {})),
{
    let reply = choose|reply: Result<Vec<u8>, TransportError>|
        #[trigger] router.answers(route_spec(kind), rate_request_bytes(pair), reply)
            && rate_reply_outcome(reply, r);
    assert(reply is Ok && reply->Ok_0@ == bytes@);
}

/// Against a router whose bulk route holds canned entries, the bulk query
/// returns the mapping that folding those entries in order gives.
pub proof fn lemma_rates_query_returns_canned_entries(
    router: MockRouter,
    entries: Vec<(String, String)>,
    r: Result<GetExchangeRatesResponse, GatewayError>,
)
    requires
        router.canned(route_spec(QueryKind::ExchangeRates)) == Some(CannedReply::Rates(entries)),
        rates_query_outcome(&router, r),
    ensures
        r is Ok,
        r->Ok_0.rates.wf(),
        r->Ok_0.rates@ == fold_rates(entries_view(entries@)),
{
    let reply = choose|reply: Result<Vec<u8>, TransportError>|
        #[trigger] router.answers(route_spec(QueryKind::ExchangeRates), Seq::empty(), reply)
            && rates_reply_outcome(reply, r);
    assert(reply is Ok && decoded_rates(reply->Ok_0@) == Some(entries_view(entries@)));
}

/// Against a router whose bulk route holds two entries for different pairs,
/// the bulk query returns a mapping of exactly those two pairs at their prices.
pub proof fn lemma_rates_query_two_pairs(
    router: MockRouter,
    entries: Vec<(String, String)>,
    p1: Seq<char>,
    v1: Seq<char>,
    p2: Seq<char>,
    v2: Seq<char>,
    r: Result<GetExchangeRatesResponse, GatewayError>,
)
    requires
        router.canned(route_spec(QueryKind::ExchangeRates)) == Some(CannedReply::Rates(entries)),
        entries_view(entries@) == seq![(p1, v1), (p2, v2)],
        p1 != p2,
        rates_query_outcome(&router, r),
    ensures
        r is Ok,
        r->Ok_0.rates@ == map![p1 => v1, p2 => v2],
        r->Ok_0.rates@.dom().len() == 2,
{
    lemma_rates_query_returns_canned_entries(router, entries, r);
    lemma_aggregate_two(p1, v1, p2, v2);
}

} // verus!
