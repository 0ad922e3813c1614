use gateway_client::endpoint::{connect_query, gateway_lookup_url, gateway_url_from, ApiClientError};
use gateway_client::json::Json;

#[test]
fn lookup_url_selects_endpoint() {
    assert_eq!(gateway_lookup_url(false, 10), "https://discord.com/api/v10/gateway");
    assert_eq!(gateway_lookup_url(true, 10), "https://discord.com/api/v10/gateway/bot");
    assert_eq!(gateway_lookup_url(false, 9), "https://discord.com/api/v9/gateway");
    assert_eq!(gateway_lookup_url(false, 255), "https://discord.com/api/v255/gateway");
}

#[test]
fn connect_query_names_version_and_encoding() {
    assert_eq!(connect_query(10), "v=10&encoding=json");
    assert_eq!(connect_query(0), "v=0&encoding=json");
    assert_eq!(connect_query(100), "v=100&encoding=json");
}

#[test]
fn url_is_read_from_lookup_response() {
    let body = Json::Object(vec![
        ("shards".to_string(), Json::UInt(1)),
        ("url".to_string(), Json::Str("wss://gateway.example".to_string())),
    ]);
    assert_eq!(gateway_url_from(&body), Ok("wss://gateway.example".to_string()));
}

#[test]
fn lookup_response_without_url_is_refused() {
    let body = Json::Object(vec![("message".to_string(), Json::Str("401: Unauthorized".to_string()))]);
    assert_eq!(gateway_url_from(&body), Err(ApiClientError::MissingUrl));
    let body = Json::Object(vec![("url".to_string(), Json::Null)]);
    assert_eq!(gateway_url_from(&body), Err(ApiClientError::MissingUrl));
    assert_eq!(gateway_url_from(&Json::Null), Err(ApiClientError::MissingUrl));
}
