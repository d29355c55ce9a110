use weather_fetcher::{
    check_status, is_success, on_body, on_response, read_temperature, status_message, Endpoint,
    FetchError, WeatherQuery, REQUEST_TIMEOUT_SECS,
};

fn london() -> WeatherQuery {
    WeatherQuery::new("51.5074".to_string(), "-0.1278".to_string())
}

#[test]
fn plan_for_london_on_open_meteo() {
    let plan = Endpoint::open_meteo().plan(&london());
    assert_eq!(
        plan.url,
        "https://api.open-meteo.com/v1/forecast?latitude=51.5074&longitude=-0.1278&current=temperature_2m&temperature_unit=celsius&timezone=auto"
    );
    assert_eq!(plan.timeout_secs, 30);
    assert_eq!(REQUEST_TIMEOUT_SECS, 30);
}

#[test]
fn plan_uses_substituted_endpoint() {
    let endpoint = Endpoint::new("http://127.0.0.1:8080/v1/forecast".to_string());
    let query = WeatherQuery::new("-90".to_string(), "180".to_string());
    assert_eq!(
        endpoint.forecast_url(&query),
        "http://127.0.0.1:8080/v1/forecast?latitude=-90&longitude=180&current=temperature_2m&temperature_unit=celsius&timezone=auto"
    );
}

#[test]
fn coordinates_are_sent_unvalidated() {
    let query = WeatherQuery::new("123.5".to_string(), "-999".to_string());
    let url = Endpoint::open_meteo().forecast_url(&query);
    assert!(url.contains("latitude=123.5&longitude=-999&"));
}

#[test]
fn success_range_edges() {
    assert!(!is_success(199));
    assert!(is_success(200));
    assert!(is_success(204));
    assert!(is_success(299));
    assert!(!is_success(300));
    assert!(!is_success(500));
    assert!(check_status(200).is_ok());
}

#[test]
fn server_error_status_is_api_error_with_code() {
    match on_response(Ok(500)) {
        Err(FetchError::ApiStatus(m)) => {
            assert!(m.contains("500"));
            assert_eq!(m, "API request failed with status: 500 Internal Server Error");
        }
        _ => panic!("expected an ApiStatus error"),
    }
}

#[test]
fn status_messages_hold_code_and_reason() {
    assert_eq!(status_message(404), "API request failed with status: 404 Not Found");
    assert_eq!(
        status_message(599),
        "API request failed with status: 599 <unknown status code>"
    );
    assert_eq!(status_message(0), "API request failed with status: 0 <unknown status code>");
    assert_eq!(
        status_message(65535),
        "API request failed with status: 65535 <unknown status code>"
    );
    assert_eq!(status_message(301), "API request failed with status: 301 Moved Permanently");
}

#[test]
fn check_status_rejects_not_found() {
    let e = check_status(404).unwrap_err();
    assert!(e.is_api_status());
    assert_eq!(e.message(), "API request failed with status: 404 Not Found");
}

#[test]
fn success_status_lets_body_be_read() {
    assert!(on_response(Ok(200)).is_ok());
}

#[test]
fn connection_failure_is_transport_error() {
    match on_response(Err("connection refused".to_string())) {
        Err(FetchError::Transport(m)) => assert_eq!(m, "connection refused"),
        _ => panic!("expected a Transport error"),
    }
}

#[test]
fn body_read_failure_is_transport_error() {
    let e = on_body(Err("connection reset".to_string())).unwrap_err();
    assert!(e.is_transport());
    assert!(!e.is_parse());
    assert_eq!(e.message(), "connection reset");
}

#[test]
fn bogus_current_record_is_parse_error() {
    let body = br#"{"current": {"bogus_field": 1}}"#.to_vec();
    match on_body(Ok(body)) {
        Err(FetchError::Parse(m)) => assert!(m.contains("temperature_2m")),
        _ => panic!("expected a Parse error"),
    }
}

#[test]
fn well_formed_body_gives_exact_temperature() {
    let body = br#"{"current": {"temperature_2m": 18.5, "time": "2024-01-01T12:00"}}"#.to_vec();
    let t = on_body(Ok(body)).unwrap();
    assert_eq!(t.as_f64(), Some(18.5));
}

#[test]
fn full_service_body_is_accepted() {
    let body = r#"{"latitude":51.5,"longitude":-0.12,"current_units":{"temperature_2m":"°C"},"current":{"time":"2024-01-01T12:00","interval":900,"temperature_2m":-3.25}}"#.as_bytes();
    let t = read_temperature(body).unwrap();
    assert_eq!(t.as_f64(), Some(-3.25));
    assert!(t.as_f64().unwrap().is_finite());
}

#[test]
fn integer_temperature_is_accepted() {
    let body = br#"{"current": {"temperature_2m": 20, "time": "2024-01-01T12:00"}}"#;
    assert_eq!(read_temperature(body).unwrap().as_f64(), Some(20.0));
}

#[test]
fn malformed_json_is_parse_error() {
    assert!(read_temperature(b"{\"current\": ").unwrap_err().is_parse());
    assert!(read_temperature(b"").unwrap_err().is_parse());
    assert!(read_temperature(b"not json").unwrap_err().is_parse());
}

#[test]
fn missing_current_is_parse_error() {
    let e = read_temperature(br#"{"temperature_2m": 18.5}"#).unwrap_err();
    assert!(e.is_parse());
    assert!(e.message().contains("current"));
}

#[test]
fn wrong_types_are_parse_errors() {
    let text_temp = br#"{"current": {"temperature_2m": "18.5", "time": "2024-01-01T12:00"}}"#;
    assert!(read_temperature(text_temp).unwrap_err().is_parse());
    let number_time = br#"{"current": {"temperature_2m": 18.5, "time": 12}}"#;
    assert!(read_temperature(number_time).unwrap_err().is_parse());
    let no_time = br#"{"current": {"temperature_2m": 18.5}}"#;
    assert!(read_temperature(no_time).unwrap_err().is_parse());
    let current_number = br#"{"current": 7}"#;
    assert!(read_temperature(current_number).unwrap_err().is_parse());
}

#[test]
fn same_query_twice_gives_same_result() {
    let endpoint = Endpoint::open_meteo();
    let first = endpoint.plan(&london());
    let second = endpoint.plan(&london());
    assert_eq!(first.url, second.url);
    assert_eq!(first.timeout_secs, second.timeout_secs);

    let body = br#"{"current": {"temperature_2m": 18.5, "time": "2024-01-01T12:00"}}"#;
    let a = on_body(Ok(body.to_vec())).unwrap();
    let b = on_body(Ok(body.to_vec())).unwrap();
    assert_eq!(a, b);

    let e1 = on_response(Ok(503)).unwrap_err();
    let e2 = on_response(Ok(503)).unwrap_err();
    assert!(e1.is_api_status() && e2.is_api_status());
    assert_eq!(e1.message(), e2.message());
}

#[test]
fn parse_error_messages_name_the_fault() {
    let top_array = read_temperature(b"[1, 2]").unwrap_err();
    assert_eq!(top_array.message(), "the response is not a JSON object");
    let current_number = read_temperature(br#"{"current": 7}"#).unwrap_err();
    assert_eq!(current_number.message(), "field `current` is not an object");
    let missing = read_temperature(br#"{"current": {"bogus_field": 1}}"#).unwrap_err();
    assert_eq!(missing.message(), "missing field `temperature_2m`");
    let no_time = read_temperature(br#"{"current": {"temperature_2m": 1.5}}"#).unwrap_err();
    assert_eq!(no_time.message(), "missing field `time`");
    let text_temp = br#"{"current": {"temperature_2m": "1.5", "time": "t"}}"#;
    assert_eq!(
        read_temperature(text_temp).unwrap_err().message(),
        "field `temperature_2m` is not a number"
    );
    let number_time = br#"{"current": {"temperature_2m": 1.5, "time": 3}}"#;
    assert_eq!(
        read_temperature(number_time).unwrap_err().message(),
        "field `time` is not a string"
    );
}

#[test]
fn repeated_key_keeps_the_last() {
    let body = br#"{"current": {"temperature_2m": 1.0, "temperature_2m": 2.5, "time": "t"}}"#;
    assert_eq!(read_temperature(body).unwrap().as_f64(), Some(2.5));
}

#[test]
fn malformed_json_carries_serde_json_description() {
    let e = read_temperature(b"{\"current\": ").unwrap_err();
    assert!(e.is_parse());
    assert!(e.message().contains("EOF"));
}
