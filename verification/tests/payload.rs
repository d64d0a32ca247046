use copy_trader::config::{rpc_endpoint, CLOB_URL, DEFAULT_RPC, TARGETS_PATH, WS_URL};
use copy_trader::Payload;

#[test]
fn default_payload_is_blank() {
    let blank: Payload<f64> = Payload::default();
    assert_eq!(blank.asset, "");
    assert_eq!(blank.bio, "");
    assert_eq!(blank.condition_id, "");
    assert_eq!(blank.event_slug, "");
    assert_eq!(blank.icon, "");
    assert_eq!(blank.name, "");
    assert_eq!(blank.outcome, "");
    assert_eq!(blank.outcome_index, 0);
    assert_eq!(blank.price, 0.0);
    assert_eq!(blank.proxy_wallet, "");
    assert_eq!(blank.side, "");
    assert_eq!(blank.size, 0.0);
    assert_eq!(blank.timestamp, 1);
    assert_eq!(blank.title, "");
    assert_eq!(blank.transaction_hash, "");
}

#[test]
fn default_payload_takes_the_default_of_its_number_type() {
    let blank: Payload<u32> = Payload::default();
    assert_eq!(blank.price, 0);
    assert_eq!(blank.size, 0);
    assert_eq!(blank.timestamp, 1);
}

#[test]
fn configured_endpoint_is_used() {
    assert_eq!(rpc_endpoint(Some("https://rpc.example".to_string())), "https://rpc.example");
    assert_eq!(rpc_endpoint(Some(String::new())), "");
}

#[test]
fn default_endpoint_fills_in() {
    assert_eq!(rpc_endpoint(None), "https://polygon-rpc.com");
    assert_eq!(DEFAULT_RPC, "https://polygon-rpc.com");
}

#[test]
fn addresses_of_the_venue() {
    assert_eq!(WS_URL, "wss://ws-live-data.polymarket.com");
    assert_eq!(CLOB_URL, "https://clob.polymarket.com");
    assert_eq!(TARGETS_PATH, "target.csv");
}
