use std::collections::HashMap;

use oracle_gateway::codec::{
    decode_rate_reply, decode_rates_reply, encode_rate_reply, encode_rate_request,
    encode_rates_reply, encode_rates_request, MalformedReply,
};
use oracle_gateway::gateway::{
    finish_query, finish_rate_query, prepare_query, query, query_exchange_rate, query_exchange_rate_twap,
    query_exchange_rates, GatewayError, QueryResponse,
};
use oracle_gateway::oracle::{GetExchangeRateResponse, QueryMsg};
use oracle_gateway::route::{resolve_route, QueryKind};
use oracle_gateway::router::{CannedReply, MockRouter, TransportError};

fn oracle_router() -> MockRouter {
    let mut router = MockRouter::new();
    router.add_route(
        resolve_route(QueryKind::ExchangeRate),
        CannedReply::Rate("1.0".to_string()),
    );
    router.add_route(
        resolve_route(QueryKind::ExchangeRateTwap),
        CannedReply::Rate("2.0".to_string()),
    );
    router.add_route(
        resolve_route(QueryKind::ExchangeRates),
        CannedReply::Rates(vec![
            ("ubtc:uusd".to_string(), "3.0".to_string()),
            ("ueth:uusd".to_string(), "4.0".to_string()),
        ]),
    );
    router
}

#[test]
fn test_query_exchange_rate() {
    let router = oracle_router();
    let resp = query_exchange_rate(&router, "ubtc:uusd".to_string()).unwrap();

    assert_eq!(
        resp,
        GetExchangeRateResponse {
            price: "1.0".to_string()
        }
    )
}

#[test]
fn test_query_exchange_rate_twap() {
    let router = oracle_router();
    let resp = query_exchange_rate_twap(&router, "ubtc:uusd".to_string()).unwrap();

    assert_eq!(
        resp,
        GetExchangeRateResponse {
            price: "2.0".to_string()
        }
    )
}

#[test]
fn test_query_exchange_rates() {
    let router = oracle_router();
    let resp = query_exchange_rates(&router).unwrap();

    let rates: HashMap<String, String> = HashMap::from_iter(resp.rates.to_entries());
    assert_eq!(
        rates,
        HashMap::from_iter(vec![
            ("ubtc:uusd".to_string(), "3.0".to_string()),
            ("ueth:uusd".to_string(), "4.0".to_string()),
        ])
    )
}

#[test]
fn rates_query_holds_exactly_the_two_canned_pairs() {
    let router = oracle_router();
    let resp = query_exchange_rates(&router).unwrap();
    assert_eq!(resp.rates.len(), 2);
    assert_eq!(resp.rates.price_of(&"ubtc:uusd".to_string()), Some("3.0".to_string()));
    assert_eq!(resp.rates.price_of(&"ueth:uusd".to_string()), Some("4.0".to_string()));
    assert_eq!(resp.rates.price_of(&"uatom:uusd".to_string()), None);
}

#[test]
fn rates_query_keeps_last_price_of_repeated_pair() {
    let mut router = MockRouter::new();
    router.add_route(
        resolve_route(QueryKind::ExchangeRates),
        CannedReply::Rates(vec![
            ("ubtc:uusd".to_string(), "3.0".to_string()),
            ("ubtc:uusd".to_string(), "3.5".to_string()),
        ]),
    );
    let resp = query_exchange_rates(&router).unwrap();
    assert_eq!(resp.rates.len(), 1);
    assert_eq!(resp.rates.price_of(&"ubtc:uusd".to_string()), Some("3.5".to_string()));
}

#[test]
fn rate_query_returns_price_unreformatted() {
    let mut router = MockRouter::new();
    router.add_route(
        resolve_route(QueryKind::ExchangeRate),
        CannedReply::Rate("0001.500000000000000000".to_string()),
    );
    let resp = query_exchange_rate(&router, "ueth:uusd".to_string()).unwrap();
    assert_eq!(resp.price, "0001.500000000000000000");
}

#[test]
fn rate_query_on_unknown_route_is_transport_error() {
    let router = MockRouter::new();
    let err = query_exchange_rate(&router, "ubtc:uusd".to_string()).unwrap_err();
    assert_eq!(
        err,
        GatewayError::Transport(TransportError::UnknownRoute(
            "/nibiru.oracle.v1.Query/ExchangeRate".to_string()
        ))
    );
}

#[test]
fn twap_query_is_not_served_by_the_rate_route() {
    let mut router = MockRouter::new();
    router.add_route(
        resolve_route(QueryKind::ExchangeRate),
        CannedReply::Rate("1.0".to_string()),
    );
    let err = query_exchange_rate_twap(&router, "ubtc:uusd".to_string()).unwrap_err();
    assert!(matches!(err, GatewayError::Transport(TransportError::UnknownRoute(_))));
}

#[test]
fn rate_query_on_truncated_reply_is_decode_error() {
    let mut router = MockRouter::new();
    router.add_route(
        resolve_route(QueryKind::ExchangeRate),
        CannedReply::Raw(vec![0x0A, 0x05, b'1', b'.']),
    );
    let err = query_exchange_rate(&router, "ubtc:uusd".to_string()).unwrap_err();
    assert_eq!(err, GatewayError::Decode(MalformedReply {}));
}

#[test]
fn rates_query_on_corrupted_reply_is_decode_error() {
    let mut router = MockRouter::new();
    router.add_route(
        resolve_route(QueryKind::ExchangeRates),
        CannedReply::Raw(vec![0x0A, 0x04, 0xFF, 0xFF, 0xFF]),
    );
    assert!(matches!(
        query_exchange_rates(&router),
        Err(GatewayError::Decode(MalformedReply {}))
    ));
}

#[test]
fn finish_passes_transport_error_through() {
    let err = finish_rate_query(Err(TransportError::Host("down".to_string()))).unwrap_err();
    assert_eq!(err, GatewayError::Transport(TransportError::Host("down".to_string())));
}

#[test]
fn finish_decodes_reply_bytes() {
    let resp = finish_rate_query(Ok(vec![0x0A, 0x03, b'7', b'.', b'5'])).unwrap();
    assert_eq!(resp.price, "7.5");
}

#[test]
fn dispatch_answers_each_message_kind() {
    let router = oracle_router();
    match query(&router, QueryMsg::GetExchangeRateTwap { pair: "ubtc:uusd".to_string() }) {
        Ok(QueryResponse::Rate(r)) => assert_eq!(r.price, "2.0"),
        _ => panic!("expected a rate"),
    }
    match query(&router, QueryMsg::GetExchangeRates {}) {
        Ok(QueryResponse::Rates(r)) => assert_eq!(r.rates.len(), 2),
        _ => panic!("expected rates"),
    }
    assert_eq!(
        QueryMsg::GetExchangeRate { pair: "x".to_string() }.kind(),
        QueryKind::ExchangeRate
    );
}

#[test]
fn routes_are_exact_and_stable() {
    assert_eq!(resolve_route(QueryKind::ExchangeRate), "/nibiru.oracle.v1.Query/ExchangeRate");
    assert_eq!(
        resolve_route(QueryKind::ExchangeRateTwap),
        "/nibiru.oracle.v1.Query/ExchangeRateTwap"
    );
    assert_eq!(resolve_route(QueryKind::ExchangeRates), "/nibiru.oracle.v1.Query/ExchangeRates");
    assert_eq!(resolve_route(QueryKind::ExchangeRates), resolve_route(QueryKind::ExchangeRates));
}

#[test]
fn rate_request_encodes_the_pair() {
    let bytes = encode_rate_request(&"ubtc:uusd".to_string());
    let mut expected = vec![0x0A, 0x09];
    expected.extend_from_slice(b"ubtc:uusd");
    assert_eq!(bytes, expected);
    assert!(encode_rates_request().is_empty());
}

#[test]
fn rate_reply_round_trips() {
    let bytes = encode_rate_reply(&"1.0".to_string());
    assert_eq!(bytes, vec![0x0A, 0x03, b'1', b'.', b'0']);
    assert_eq!(decode_rate_reply(&bytes), Ok("1.0".to_string()));
}

#[test]
fn rates_reply_round_trips() {
    let entries = vec![
        ("ubtc:uusd".to_string(), "3.0".to_string()),
        ("ueth:uusd".to_string(), "4.0".to_string()),
    ];
    let bytes = encode_rates_reply(&entries);
    assert_ne!(bytes.len(), 0);
    assert_eq!(decode_rates_reply(&bytes), Ok(entries));
}

#[test]
fn truncated_and_corrupted_bytes_fail_to_decode() {
    assert_eq!(decode_rate_reply(&vec![0x0A, 0x05, b'1']), Err(MalformedReply {}));
    assert_eq!(decode_rate_reply(&vec![0xFF]), Err(MalformedReply {}));
    assert_eq!(decode_rates_reply(&vec![0x0A, 0x07, 0x0A]), Err(MalformedReply {}));
}

#[test]
fn prepare_gives_route_and_request_bytes() {
    let (route, data) = prepare_query(&QueryMsg::GetExchangeRateTwap { pair: "ubtc:uusd".to_string() });
    assert_eq!(route, "/nibiru.oracle.v1.Query/ExchangeRateTwap");
    assert_eq!(data, encode_rate_request(&"ubtc:uusd".to_string()));
    let (route, data) = prepare_query(&QueryMsg::GetExchangeRates {});
    assert_eq!(route, "/nibiru.oracle.v1.Query/ExchangeRates");
    assert!(data.is_empty());
}

#[test]
fn finish_query_reads_reply_by_message_kind() {
    let msg = QueryMsg::GetExchangeRates {};
    let bytes = encode_rates_reply(&vec![("ubtc:uusd".to_string(), "3.0".to_string())]);
    match finish_query(&msg, Ok(bytes)) {
        Ok(QueryResponse::Rates(r)) => {
            assert_eq!(r.rates.price_of(&"ubtc:uusd".to_string()), Some("3.0".to_string()))
        }
        _ => panic!("expected rates"),
    }
    let msg = QueryMsg::GetExchangeRate { pair: "ubtc:uusd".to_string() };
    assert!(matches!(
        finish_query(&msg, Ok(vec![0xFF])),
        Err(GatewayError::Decode(MalformedReply {}))
    ));
}
