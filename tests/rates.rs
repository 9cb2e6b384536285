use oracle_gateway::rates::{aggregate, AggregatedRates};

fn entry(pair: &str, price: &str) -> (String, String) {
    (pair.to_string(), price.to_string())
}

#[test]
fn aggregate_of_two_pairs_holds_both() {
    let rates = aggregate(&vec![entry("ubtc:uusd", "3.0"), entry("ueth:uusd", "4.0")]);
    assert_eq!(rates.len(), 2);
    assert_eq!(rates.price_of(&"ubtc:uusd".to_string()), Some("3.0".to_string()));
    assert_eq!(rates.price_of(&"ueth:uusd".to_string()), Some("4.0".to_string()));
}

#[test]
fn aggregate_keeps_last_write_for_a_pair() {
    let rates = aggregate(&vec![entry("ubtc:uusd", "1.0"), entry("ubtc:uusd", "2.0")]);
    assert_eq!(rates.len(), 1);
    assert_eq!(rates.price_of(&"ubtc:uusd".to_string()), Some("2.0".to_string()));
}

#[test]
fn aggregate_of_nothing_is_empty() {
    let rates = aggregate(&vec![]);
    assert_eq!(rates.len(), 0);
    assert_eq!(rates.price_of(&"ubtc:uusd".to_string()), None);
    assert!(rates.to_entries().is_empty());
}

#[test]
fn insert_replaces_in_place() {
    let mut rates = AggregatedRates::new();
    rates.insert("a".to_string(), "1".to_string());
    rates.insert("b".to_string(), "2".to_string());
    rates.insert("a".to_string(), "3".to_string());
    assert_eq!(rates.to_entries(), vec![entry("a", "3"), entry("b", "2")]);
}
