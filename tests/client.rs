use sanity_client::config::{create, get_url};
use sanity_client::encode::encode_component;
use sanity_client::error::SanityError;
use sanity_client::helpers::decode_body;
use sanity_client::retry::{next_step, Outcome, RetryStep, INITIAL_BACKOFF_MS, MAX_ATTEMPTS};

const ENDPOINT: &str = "https://abc123.api.sanity.io/v1/data/query/production";

#[test]
fn get_url_formats_endpoint() {
    assert_eq!(get_url("abc123", "production"), ENDPOINT);
    assert_eq!(get_url("abc123", "production"), get_url("abc123", "production"));
}

#[test]
fn get_url_accepts_empty_inputs() {
    assert_eq!(get_url("", ""), "https://.api.sanity.io/v1/data/query/");
}

#[test]
fn build_url_uses_given_query() {
    let mut cfg = create("abc123", "production", "tok_xyz", true);
    assert_eq!(cfg.build_url(Some("q1")).unwrap(), format!("{}?query=q1", ENDPOINT));
}

#[test]
fn build_url_given_query_beats_stored_one() {
    let mut cfg = create("abc123", "production", "tok_xyz", false);
    cfg.query.query = Some("stored".to_string());
    assert_eq!(cfg.build_url(Some("given")).unwrap(), format!("{}?query=given", ENDPOINT));
    assert_eq!(cfg.build_url(None).unwrap(), format!("{}?query=stored", ENDPOINT));
}

#[test]
fn build_url_without_query_is_missing_query() {
    let mut cfg = create("abc123", "production", "tok_xyz", true);
    assert!(matches!(cfg.build_url(None), Err(SanityError::MissingQuery)));
}

#[test]
fn create_is_the_same_in_both_environments() {
    let mut prod = create("p", "d", "t", true);
    let mut dev = create("p", "d", "t", false);
    assert_eq!(prod.build_url(Some("x")).unwrap(), dev.build_url(Some("x")).unwrap());
    assert!(prod.query.query.is_none());
}

#[test]
fn decode_body_parses_json() {
    let v = decode_body("{\"result\": [1,2,3]}").unwrap();
    let mut expected = serde_json::Map::new();
    expected.insert(
        "result".to_string(),
        serde_json::Value::Array(vec![
            serde_json::Value::from(1),
            serde_json::Value::from(2),
            serde_json::Value::from(3),
        ]),
    );
    assert_eq!(v, serde_json::Value::Object(expected));
}

#[test]
fn decode_body_rejects_non_json() {
    assert!(matches!(decode_body("not json"), Err(SanityError::Decode(_))));
    assert!(matches!(decode_body(""), Err(SanityError::Decode(_))));
}

#[test]
fn get_request_end_to_end() {
    let mut cfg = create("abc123", "production", "tok_xyz", true);
    let req = cfg.get_request("*[_type == \"post\"]");
    assert_eq!(
        req.url,
        format!("{}?query=*%5B_type%20%3D%3D%20%22post%22%5D", ENDPOINT)
    );
    assert_eq!(req.authorization.as_deref(), Some("Bearer tok_xyz"));
}

#[test]
fn get_request_always_carries_bearer() {
    let mut cfg = create("p", "d", "", false);
    let req = cfg.get_request("");
    assert_eq!(req.authorization.as_deref(), Some("Bearer "));
    assert_eq!(req.url, "https://p.api.sanity.io/v1/data/query/d?query=");
}

#[test]
fn execute_request_is_anonymous() {
    let mut cfg = create("abc123", "production", "tok_xyz", true);
    cfg.query.query = Some("a b".to_string());
    let req = cfg.query.execute_request().unwrap();
    assert_eq!(req.url, format!("{}?query=a b", ENDPOINT));
    assert!(req.authorization.is_none());
}

#[test]
fn execute_request_without_query_is_missing_query() {
    let cfg = create("abc123", "production", "tok_xyz", true);
    assert!(matches!(cfg.query.execute_request(), Err(SanityError::MissingQuery)));
}

#[test]
fn encode_component_values() {
    assert_eq!(encode_component(""), "");
    assert_eq!(encode_component("AZaz09-_.!~*'()"), "AZaz09-_.!~*'()");
    assert_eq!(encode_component("a=b&c"), "a%3Db%26c");
    assert_eq!(encode_component("é"), "%C3%A9");
    assert_eq!(encode_component("#/?%"), "%23%2F%3F%25");
}

#[test]
fn next_step_backs_off_exponentially() {
    assert_eq!(next_step(0, Outcome::TransportError), RetryStep::Retry { delay_ms: INITIAL_BACKOFF_MS });
    assert_eq!(next_step(1, Outcome::Response(503)), RetryStep::Retry { delay_ms: 2000 });
    assert_eq!(next_step(2, Outcome::Response(429)), RetryStep::Retry { delay_ms: 4000 });
    assert_eq!(next_step(3, Outcome::Response(500)), RetryStep::Retry { delay_ms: 8000 });
}

#[test]
fn next_step_stops_after_last_attempt() {
    assert_eq!(next_step(MAX_ATTEMPTS - 1, Outcome::TransportError), RetryStep::Stop);
    assert_eq!(next_step(u32::MAX, Outcome::Response(599)), RetryStep::Stop);
}

#[test]
fn next_step_stops_on_final_statuses() {
    assert_eq!(next_step(0, Outcome::Response(200)), RetryStep::Stop);
    assert_eq!(next_step(0, Outcome::Response(404)), RetryStep::Stop);
    assert_eq!(next_step(0, Outcome::Response(600)), RetryStep::Stop);
    assert_eq!(next_step(0, Outcome::Response(499)), RetryStep::Stop);
}

#[test]
fn set_query_stores_and_clears() {
    let mut cfg = create("abc123", "production", "tok_xyz", true);
    cfg.set_query(Some("*[_id == \"x\"]"));
    assert_eq!(cfg.query.query.as_deref(), Some("*[_id == \"x\"]"));
    assert_eq!(
        cfg.build_url(None).unwrap(),
        format!("{}?query=*[_id == \"x\"]", ENDPOINT)
    );
    let req = cfg.query.execute_request().unwrap();
    assert_eq!(req.url, format!("{}?query=*[_id == \"x\"]", ENDPOINT));
    cfg.set_query(None);
    assert!(matches!(cfg.build_url(None), Err(SanityError::MissingQuery)));
}
