use viber_balance::api::{
    auth_header, balance_status_outcome, balance_url, request_headers, check_balance_status, check_status, log_stats_url, logs_url,
    require_data, status_is_success, status_outcome, Expected,
};
use viber_balance::commands::{daily_window, require_token, DAY_SECS};
use viber_balance::text::push_int;

#[test]
fn logs_url_with_all_filters() {
    let url = logs_url(2, 50, 0, Some("sonnet-4"), Some(1700000000), Some(1700086400));
    assert_eq!(
        url,
        "https://viber.claudegateway.site/api/balance/logs?p=2&page_size=50&type=0&model_name=sonnet-4&start_timestamp=1700000000&end_timestamp=1700086400"
    );
}

#[test]
fn logs_url_skips_empty_model_and_absent_times() {
    let url = logs_url(0, 1000, 2, Some(""), None, None);
    assert_eq!(url, "https://viber.claudegateway.site/api/balance/logs?p=0&page_size=1000&type=2");
    let url = logs_url(-1, 10, -3, None, Some(-5), None);
    assert_eq!(
        url,
        "https://viber.claudegateway.site/api/balance/logs?p=-1&page_size=10&type=-3&start_timestamp=-5"
    );
}

#[test]
fn log_stats_url_with_filters() {
    assert_eq!(
        log_stats_url(0, None, Some(100), Some(200)),
        "https://viber.claudegateway.site/api/balance/logs/stat?type=0&start_timestamp=100&end_timestamp=200"
    );
    assert_eq!(
        log_stats_url(1, Some("gpt-4o"), None, None),
        "https://viber.claudegateway.site/api/balance/logs/stat?type=1&model_name=gpt-4o"
    );
}

#[test]
fn bearer_header() {
    assert_eq!(auth_header("sk-abc"), "Bearer sk-abc");
    assert_eq!(auth_header(""), "Bearer ");
}

#[test]
fn status_checks_for_logs() {
    assert_eq!(check_status(200), Ok(()));
    assert_eq!(check_status(299), Ok(()));
    assert_eq!(check_status(404), Err("HTTP 404 Not Found".to_string()));
    assert_eq!(check_status(500), Err("HTTP 500 Internal Server Error".to_string()));
    assert_eq!(check_status(401), Err("HTTP 401 Unauthorized".to_string()));
    assert_eq!(check_status(599), Err("HTTP 599 <unknown status code>".to_string()));
}

#[test]
fn status_checks_for_balance() {
    assert_eq!(check_balance_status(204), Ok(()));
    assert_eq!(check_balance_status(401), Err("Auth error: invalid token".to_string()));
    assert_eq!(check_balance_status(403), Err("Auth error: invalid token".to_string()));
    assert_eq!(check_balance_status(302), Err("HTTP 302 Found".to_string()));
    assert_eq!(check_balance_status(503), Err("HTTP 503 Service Unavailable".to_string()));
}

#[test]
fn status_outcomes_from_displayed_text() {
    assert!(status_is_success(250));
    assert!(!status_is_success(199));
    assert!(!status_is_success(300));
    assert_eq!(status_outcome(418, "418 I'm a teapot"), Err("HTTP 418 I'm a teapot".to_string()));
    assert_eq!(status_outcome(201, "ignored"), Ok(()));
    assert_eq!(balance_status_outcome(403, "ignored"), Err("Auth error: invalid token".to_string()));
    assert_eq!(balance_status_outcome(400, "400 Bad Request"), Err("HTTP 400 Bad Request".to_string()));
}

#[test]
fn missing_reply_parts() {
    assert_eq!(require_data(Some(7), Expected::Token), Ok(7));
    assert_eq!(require_data::<i32>(None, Expected::Token), Err("No token data in response".to_string()));
    assert_eq!(require_data::<i32>(None, Expected::Logs), Err("No log data in response".to_string()));
    assert_eq!(require_data::<i32>(None, Expected::Stats), Err("No stat data in response".to_string()));
}

#[test]
fn token_required() {
    assert_eq!(require_token(""), Err("No token configured".to_string()));
    assert_eq!(require_token("t"), Ok(()));
}

#[test]
fn daily_windows() {
    assert_eq!(daily_window(1_700_000_000, 7), (1_700_000_000 - 7 * 86400, 1_700_000_000));
    assert_eq!(daily_window(0, -1), (86400, 0));
    let (start, end) = daily_window(1_700_000_000, 30);
    assert_eq!(end - start, 30 * DAY_SECS);
}

#[test]
fn decimal_text() {
    let mut s = String::from("n=");
    push_int(&mut s, 0);
    s.push(' ');
    push_int(&mut s, -7);
    s.push(' ');
    push_int(&mut s, 1234567890);
    s.push(' ');
    push_int(&mut s, i64::MIN);
    s.push(' ');
    push_int(&mut s, i64::MAX);
    assert_eq!(s, "n=0 -7 1234567890 -9223372036854775808 9223372036854775807");
}

#[test]
fn daily_window_of_zero_days() {
    let (start, end) = daily_window(i64::MIN, 0);
    assert_eq!((start, end), (i64::MIN, i64::MIN));
    let (start, end) = daily_window(1_700_000_000, i32::MIN);
    assert_eq!(start - end, 2147483648 * DAY_SECS);
}

#[test]
fn balance_request() {
    assert_eq!(balance_url(), "https://viber.claudegateway.site/api/balance/check");
    let headers = request_headers("sk-1");
    let pairs: Vec<(&str, &str)> = headers.iter().map(|(k, v)| (k.as_str(), v.as_str())).collect();
    assert_eq!(
        pairs,
        vec![
            ("Authorization", "Bearer sk-1"),
            ("Accept", "application/json"),
            ("New-API-User", "-1"),
            ("Cache-Control", "no-store"),
        ]
    );
}
