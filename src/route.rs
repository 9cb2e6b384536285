use vstd::prelude::*;
use vstd::string::StringExecFns;

verus! {

/// The package namespace under which the oracle module serves its queries.
pub open spec fn oracle_package_spec() -> Seq<char> {
    "nibiru.oracle.v1"@
}

/// Relies on the `prost::Name::PACKAGE` constant that nibiru-std gives the
/// oracle's request messages.
#[verifier::external_body]
fn oracle_package() -> (r: String)
    ensures
        r@ == oracle_package_spec(),
{
    <nibiru_std::proto::nibiru::oracle::QueryExchangeRateRequest as prost::Name>::PACKAGE.to_string()
}

/// The closed set of remote methods that the gateway can address.
#[derive(Clone, Copy, Debug, PartialEq, Eq, Structural)]
pub enum QueryKind {
    ExchangeRate,
    ExchangeRateTwap,
    ExchangeRates,
}

/// The method name that the oracle's query service gives each kind.
pub open spec fn method_name(kind: QueryKind) -> Seq<char> {
    match kind {
        QueryKind::ExchangeRate => "ExchangeRate"@,
        QueryKind::ExchangeRateTwap => "ExchangeRateTwap"@,
        QueryKind::ExchangeRates => "ExchangeRates"@,
    }
}

/// The route of a kind: `/<package>.Query/<method>`.
pub open spec fn route_spec(kind: QueryKind) -> Seq<char> {
    "/"@ + oracle_package_spec() + ".Query/"@ + method_name(kind)
}

fn method_str(kind: QueryKind) -> (r: &'static str)
    ensures
        r@ == method_name(kind),
{
    match kind {
        QueryKind::ExchangeRate => "ExchangeRate",
        QueryKind::ExchangeRateTwap => "ExchangeRateTwap",
        QueryKind::ExchangeRates => "ExchangeRates",
    }
}

/// Computes the route string that addresses `kind` on the oracle service.
pub fn resolve_route(kind: QueryKind) -> (r: String)
    ensures
        r@ == route_spec(kind),
{
    let package = oracle_package();
    let mut r = String::from_str("/");
    r.append(package.as_str());
    r.append(".Query/");
    r.append(method_str(kind));
    r
}

/// Resolution is a function of the kind: resolving one kind twice gives the
/// same route, and two different kinds never share a route.
pub proof fn lemma_route_stable_and_distinct(k1: QueryKind, k2: QueryKind)
    ensures
        k1 == k2 ==> route_spec(k1) == route_spec(k2),
        route_spec(k1) == route_spec(k2) ==> k1 == k2,
{
    reveal_strlit("ExchangeRate");
    reveal_strlit("ExchangeRateTwap");
    reveal_strlit("ExchangeRates");
    if route_spec(k1) == route_spec(k2) {
        assert(route_spec(k1).len() == route_spec(k2).len());
        assert(method_name(k1).len() == method_name(k2).len());
    }
}

} // verus!
