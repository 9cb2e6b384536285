use vstd::prelude::*;
use nibiru_std::proto::nibiru::oracle::{
    ExchangeRateTuple, QueryExchangeRateRequest, QueryExchangeRateResponse,
    QueryExchangeRatesRequest, QueryExchangeRatesResponse,
};
use prost::Message;

verus! {

/// prost's decode error, carried opaque from the decode wrappers to the point
/// where it is mapped to `MalformedReply`.
#[verifier::external_type_specification]
#[verifier::external_body]
pub struct ExProstDecodeError(prost::DecodeError);

/// The bytes are not a well-formed encoding of the expected reply message.
#[derive(Clone, Copy, Debug, PartialEq, Eq, Structural)]
pub struct MalformedReply {}

/// The wire encoding of a rate request for `pair`.
pub uninterp spec fn rate_request_bytes(pair: Seq<char>) -> Seq<u8>;

/// The price that a single-rate reply carries, or `None` where `bytes` do not
/// decode as such a reply.
pub uninterp spec fn decoded_rate(bytes: Seq<u8>) -> Option<Seq<char>>;

/// The `(pair, price)` entries, in wire order, that a bulk reply carries, or
/// `None` where `bytes` do not decode as such a reply.
pub uninterp spec fn decoded_rates(bytes: Seq<u8>) -> Option<Seq<(Seq<char>, Seq<char>)>>;

/// The `(pair, price)` entries of `v` as sequences of characters.
pub open spec fn entries_view(v: Seq<(String, String)>) -> Seq<(Seq<char>, Seq<char>)> {
    v.map_values(|e: (String, String)| (e.0@, e.1@))
}

/// Relies on `prost::Message::encode_to_vec` for nibiru-std's
/// `QueryExchangeRateRequest`: the encoding is a function of the pair.
#[verifier::external_body]
fn encode_rate_request_raw(pair: &String) -> (r: Vec<u8>)
    ensures
        r@ == rate_request_bytes(pair@),
{
    QueryExchangeRateRequest { pair: pair.clone() }.encode_to_vec()
}

/// Relies on `prost::Message::encode_to_vec` for nibiru-std's
/// `QueryExchangeRatesRequest`, a message without fields: it encodes to no bytes.
#[verifier::external_body]
fn encode_rates_request_raw() -> (r: Vec<u8>)
    ensures
        r@.len() == 0,
{
    QueryExchangeRatesRequest {}.encode_to_vec()
}

/// Relies on `prost::Message::encode_to_vec` for nibiru-std's
/// `QueryExchangeRateResponse`: decoding what it writes gives the price back.
#[verifier::external_body]
fn encode_rate_reply_raw(price: &String) -> (r: Vec<u8>)
    ensures
        decoded_rate(r@) == Some(price@),
{
    QueryExchangeRateResponse { exchange_rate: price.clone(), ..Default::default() }.encode_to_vec()
}

/// Relies on `prost::Message::encode_to_vec` for nibiru-std's
/// `QueryExchangeRatesResponse`: decoding what it writes gives the entries back.
#[verifier::external_body]
fn encode_rates_reply_raw(entries: &Vec<(String, String)>) -> (r: Vec<u8>)
    ensures
        decoded_rates(r@) == Some(entries_view(entries@)),
{
    let exchange_rates = entries
        .iter()
        .map(|e| ExchangeRateTuple { pair: e.0.clone(), exchange_rate: e.1.clone() })
        .collect();
    QueryExchangeRatesResponse { exchange_rates }.encode_to_vec()
}

/// Relies on `prost::Message::decode` for nibiru-std's
/// `QueryExchangeRateResponse`, of which the price field is kept.
#[verifier::external_body]
fn decode_rate_reply_raw(bytes: &Vec<u8>) -> (r: Result<String, prost::DecodeError>)
    ensures
        match r {
            Ok(price) => decoded_rate(bytes@) == Some(price@),
            Err(_) => decoded_rate(bytes@) is None,
        },
{
    QueryExchangeRateResponse::decode(bytes.as_slice()).map(|m| m.exchange_rate)
}

/// Relies on `prost::Message::decode` for nibiru-std's
/// `QueryExchangeRatesResponse`, of which each tuple's pair and price are kept.
#[verifier::external_body]
fn decode_rates_reply_raw(bytes: &Vec<u8>) -> (r: Result<Vec<(String, String)>, prost::DecodeError>)
    ensures
        match r {
            Ok(entries) => decoded_rates(bytes@) == Some(entries_view(entries@)),
            Err(_) => decoded_rates(bytes@) is None,
        },
{
    QueryExchangeRatesResponse::decode(bytes.as_slice())
        .map(|m| m.exchange_rates.into_iter().map(|t| (t.pair, t.exchange_rate)).collect())
}

/// Encodes the request for the rate (or time-weighted rate) of `pair`.
pub fn encode_rate_request(pair: &String) -> (r: Vec<u8>)
    ensures
        r@ == rate_request_bytes(pair@),
{
    encode_rate_request_raw(pair)
}

/// Encodes the request for every rate; it has no fields.
pub fn encode_rates_request() -> (r: Vec<u8>)
    ensures
        r@ == Seq::<u8>::empty(),
{
    let r = encode_rates_request_raw();
    assert(r@ =~= Seq::<u8>::empty());
    r
}

/// Encodes a single-rate reply carrying `price`.
pub fn encode_rate_reply(price: &String) -> (r: Vec<u8>)
    ensures
        decoded_rate(r@) == Some(price@),
{
    encode_rate_reply_raw(price)
}

/// Encodes a bulk reply carrying `entries` in order.
pub fn encode_rates_reply(entries: &Vec<(String, String)>) -> (r: Vec<u8>)
    ensures
        decoded_rates(r@) == Some(entries_view(entries@)),
{
    encode_rates_reply_raw(entries)
}

/// Decodes a single-rate reply into its price, all or nothing.
pub fn decode_rate_reply(bytes: &Vec<u8>) -> (r: Result<String, MalformedReply>)
    ensures
        match decoded_rate(bytes@) {
            Some(price) => r is Ok && r->Ok_0@ == price,
            None => r == Err::<String, MalformedReply>(MalformedReply {}),
        },
{
    match decode_rate_reply_raw(bytes) {
        Ok(price) => Ok(price),
        Err(_) => Err(MalformedReply {}),
    }
}

/// Decodes a bulk reply into its `(pair, price)` entries, all or nothing.
pub fn decode_rates_reply(bytes: &Vec<u8>) -> (r: Result<Vec<(String, String)>, MalformedReply>)
    ensures
        match decoded_rates(bytes@) {
            Some(entries) => r is Ok && entries_view(r->Ok_0@) == entries,
            None => r == Err::<Vec<(String, String)>, MalformedReply>(MalformedReply {}),
        },
{
    match decode_rates_reply_raw(bytes) {
        Ok(entries) => Ok(entries),
        Err(_) => Err(MalformedReply {}),
    }
}

} // verus!
