//! Requests to the balance service and checks on its replies.

use vstd::prelude::*;
use vstd::string::*;
use crate::text::{int_text, push_int};

verus! {

/// Endpoint that lists usage logs.
pub open spec fn logs_endpoint() -> Seq<char> {
    "https://viber.claudegateway.site/api/balance/logs"@
}

/// Endpoint that sums usage logs per model.
pub open spec fn log_stats_endpoint() -> Seq<char> {
    "https://viber.claudegateway.site/api/balance/logs/stat"@
}

/// Endpoint that reports the token's balance.
pub open spec fn balance_endpoint() -> Seq<char> {
    "https://viber.claudegateway.site/api/balance/check"@
}

/// Value of the `Authorization` header for a token.
pub open spec fn bearer_text(token: Seq<char>) -> Seq<char> {
    "Bearer "@ + token
}

/// The optional filters shared by the log queries: a model name (only when it
/// is not empty) and the two ends of a time range.
pub open spec fn filter_text(model_name: Option<&str>, start: Option<i64>, end: Option<i64>) -> Seq<char> {
    let m = match model_name {
        Some(m) => if m@.len() > 0 { "&model_name="@ + m@ } else { Seq::empty() },
        None => Seq::empty(),
    };
    let s = match start {
        Some(t) => "&start_timestamp="@ + int_text(t as int),
        None => Seq::empty(),
    };
    let e = match end {
        Some(t) => "&end_timestamp="@ + int_text(t as int),
        None => Seq::empty(),
    };
    m + s + e
}

/// Full URL of one page of logs.
pub open spec fn logs_url_text(
    page: i32,
    page_size: i32,
    log_type: i32,
    model_name: Option<&str>,
    start: Option<i64>,
    end: Option<i64>,
) -> Seq<char> {
    logs_endpoint() + "?p="@ + int_text(page as int) + "&page_size="@ + int_text(page_size as int)
        + "&type="@ + int_text(log_type as int) + filter_text(model_name, start, end)
}

/// Full URL of the per-model log statistics.
pub open spec fn log_stats_url_text(
    log_type: i32,
    model_name: Option<&str>,
    start: Option<i64>,
    end: Option<i64>,
) -> Seq<char> {
    log_stats_endpoint() + "?type="@ + int_text(log_type as int) + filter_text(model_name, start, end)
}

/// The filters of the statistics URL are independent of one another: the URL
/// with all filters is the URL with the model filter alone followed by the
/// time filters alone; a non-empty model name adds `&model_name=<name>` right
/// after the type, whatever the times; an absent or empty one adds nothing;
/// the start adds `&start_timestamp=<start>` and the end `&end_timestamp=<end>`.
pub proof fn lemma_log_stats_filters_independent(
    log_type: i32,
    model_name: Option<&str>,
    start: Option<i64>,
    end: Option<i64>,
)
    ensures
        log_stats_url_text(log_type, None, None, None) == log_stats_endpoint() + "?type="@ + int_text(
            log_type as int,
        ),
        log_stats_url_text(log_type, model_name, start, end) == log_stats_url_text(
            log_type,
            model_name,
            None,
            None,
        ) + log_stats_url_text(log_type, None, start, end).skip(
            log_stats_url_text(log_type, None, None, None).len() as int,
        ),
        model_name matches Some(m) ==> (m@.len() > 0 ==> log_stats_url_text(log_type, model_name, None, None)
            == log_stats_url_text(log_type, None, None, None) + "&model_name="@ + m@),
        !(model_name matches Some(m) && m@.len() > 0) ==> log_stats_url_text(log_type, model_name, None, None)
            == log_stats_url_text(log_type, None, None, None),
        log_stats_url_text(log_type, None, start, end) == log_stats_url_text(log_type, None, None, None)
            + (match start {
            Some(t) => "&start_timestamp="@ + int_text(t as int),
            None => Seq::empty(),
        }) + (match end {
            Some(t) => "&end_timestamp="@ + int_text(t as int),
            None => Seq::empty(),
        }),
{
    let base = log_stats_url_text(log_type, None, None, None);
    assert(base =~= log_stats_endpoint() + "?type="@ + int_text(log_type as int));
    let times = log_stats_url_text(log_type, None, start, end);
    assert(times.skip(base.len() as int) =~= filter_text(None, start, end));
    assert(log_stats_url_text(log_type, model_name, start, end) =~= log_stats_url_text(log_type, model_name, None, None)
        + filter_text(None, start, end));
    assert(log_stats_url_text(log_type, model_name, None, None) =~= base + filter_text(model_name, None, None));
    assert(times =~= base + filter_text(None, start, end));
}

/// The filters of the log URL are independent of one another and of the
/// paging: the URL with all filters is the URL with the model filter alone
/// followed by the time filters alone, and a non-empty model name adds
/// `&model_name=<name>` right after the type, whatever the times.
pub proof fn lemma_logs_filters_independent(
    page: i32,
    page_size: i32,
    log_type: i32,
    model_name: Option<&str>,
    start: Option<i64>,
    end: Option<i64>,
)
    ensures
        logs_url_text(page, page_size, log_type, None, None, None) == logs_endpoint() + "?p="@ + int_text(
            page as int,
        ) + "&page_size="@ + int_text(page_size as int) + "&type="@ + int_text(log_type as int),
        logs_url_text(page, page_size, log_type, model_name, start, end) == logs_url_text(
            page,
            page_size,
            log_type,
            model_name,
            None,
            None,
        ) + logs_url_text(page, page_size, log_type, None, start, end).skip(
            logs_url_text(page, page_size, log_type, None, None, None).len() as int,
        ),
        model_name matches Some(m) ==> (m@.len() > 0 ==> logs_url_text(page, page_size, log_type, model_name, None, None)
            == logs_url_text(page, page_size, log_type, None, None, None) + "&model_name="@ + m@),
        !(model_name matches Some(m) && m@.len() > 0) ==> logs_url_text(
            page,
            page_size,
            log_type,
            model_name,
            None,
            None,
        ) == logs_url_text(page, page_size, log_type, None, None, None),
{
    let base = logs_url_text(page, page_size, log_type, None, None, None);
    assert(base =~= logs_endpoint() + "?p="@ + int_text(page as int) + "&page_size="@ + int_text(page_size as int)
        + "&type="@ + int_text(log_type as int));
    let times = logs_url_text(page, page_size, log_type, None, start, end);
    assert(times =~= base + filter_text(None, start, end));
    assert(times.skip(base.len() as int) =~= filter_text(None, start, end));
    assert(logs_url_text(page, page_size, log_type, model_name, start, end) =~= logs_url_text(
        page,
        page_size,
        log_type,
        model_name,
        None,
        None,
    ) + filter_text(None, start, end));
    assert(logs_url_text(page, page_size, log_type, model_name, None, None) =~= base + filter_text(model_name, None, None));
}

/// The `Authorization` header value: `Bearer <token>`.
pub fn auth_header(token: &str) -> (r: String)
    ensures
        r@ == bearer_text(token@),
        r@ == "Bearer "@ + token@,
{
    let mut s = String::from_str("Bearer ");
    s.append(token);
    s
}

/// URL of the token's balance.
pub fn balance_url() -> (r: String)
    ensures
        r@ == balance_endpoint(),
{
    String::from_str("https://viber.claudegateway.site/api/balance/check")
}

/// The headers of every request, in order: the token, JSON replies, the
/// service's user marker, and no caching.
pub open spec fn request_header_texts(token: Seq<char>) -> Seq<(Seq<char>, Seq<char>)> {
    seq![
        ("Authorization"@, bearer_text(token)),
        ("Accept"@, "application/json"@),
        ("New-API-User"@, "-1"@),
        ("Cache-Control"@, "no-store"@),
    ]
}

/// The headers of every request, as name and value pairs.
pub fn request_headers(token: &str) -> (r: Vec<(String, String)>)
    ensures
        r.len() == request_header_texts(token@).len(),
        forall|i: int| 0 <= i < r.len() ==> (#[trigger] r[i]).0@ == request_header_texts(token@)[i].0
            && r[i].1@ == request_header_texts(token@)[i].1,
{
    let mut v: Vec<(String, String)> = Vec::new();
    v.push((String::from_str("Authorization"), auth_header(token)));
    v.push((String::from_str("Accept"), String::from_str("application/json")));
    v.push((String::from_str("New-API-User"), String::from_str("-1")));
    v.push((String::from_str("Cache-Control"), String::from_str("no-store")));
    v
}

fn push_filters(url: &mut String, model_name: Option<&str>, start: Option<i64>, end: Option<i64>)
    ensures
        final(url)@ == old(url)@ + filter_text(model_name, start, end),
{
    let ghost u0 = url@;
    if let Some(m) = model_name {
        if !m.is_empty() {
            url.append("&model_name=");
            url.append(m);
        }
    }
    let ghost u1 = url@;
    if let Some(ts) = start {
        url.append("&start_timestamp=");
        push_int(url, ts);
    }
    let ghost u2 = url@;
    if let Some(ts) = end {
        url.append("&end_timestamp=");
        push_int(url, ts);
    }
    assert(url@ =~= u0 + filter_text(model_name, start, end));
}

/// URL of one page of usage logs, filtered by type, and optionally by model
/// and time range.
pub fn logs_url(
    page: i32,
    page_size: i32,
    log_type: i32,
    model_name: Option<&str>,
    start: Option<i64>,
    end: Option<i64>,
) -> (r: String)
    ensures
        r@ == logs_url_text(page, page_size, log_type, model_name, start, end),
        (logs_endpoint() + "?p="@ + int_text(page as int) + "&page_size="@ + int_text(page_size as int)
            + "&type="@ + int_text(log_type as int)).is_prefix_of(r@),
        model_name matches Some(m) ==> (m@.len() > 0 ==> (logs_endpoint() + "?p="@ + int_text(page as int)
            + "&page_size="@ + int_text(page_size as int) + "&type="@ + int_text(log_type as int)
            + "&model_name="@ + m@).is_prefix_of(r@)),
{
    let mut url = String::from_str("https://viber.claudegateway.site/api/balance/logs");
    url.append("?p=");
    push_int(&mut url, page as i64);
    url.append("&page_size=");
    push_int(&mut url, page_size as i64);
    url.append("&type=");
    push_int(&mut url, log_type as i64);
    push_filters(&mut url, model_name, start, end);
    assert(url@ =~= logs_url_text(page, page_size, log_type, model_name, start, end));
    url
}

/// URL of the per-model statistics of the usage logs.
pub fn log_stats_url(log_type: i32, model_name: Option<&str>, start: Option<i64>, end: Option<i64>) -> (r: String)
    ensures
        r@ == log_stats_url_text(log_type, model_name, start, end),
        (log_stats_endpoint() + "?type="@ + int_text(log_type as int)).is_prefix_of(r@),
        model_name matches Some(m) ==> (m@.len() > 0 ==> (log_stats_endpoint() + "?type="@ + int_text(
            log_type as int,
        ) + "&model_name="@ + m@).is_prefix_of(r@)),
{
    let mut url = String::from_str("https://viber.claudegateway.site/api/balance/logs/stat");
    url.append("?type=");
    push_int(&mut url, log_type as i64);
    push_filters(&mut url, model_name, start, end);
    assert(url@ =~= log_stats_url_text(log_type, model_name, start, end));
    url
}


/// The reason phrase that `reqwest::StatusCode`'s `Display` writes after the
/// number: the canonical reason of the code, or `<unknown status code>`.
pub uninterp spec fn status_reason(code: u16) -> Seq<char>;

/// What `reqwest::StatusCode`'s `Display` writes for a status code: the number,
/// a space and the reason phrase.
pub open spec fn status_text(code: u16) -> Seq<char> {
    int_text(code as int) + " "@ + status_reason(code)
}

/// `reqwest::StatusCode::from_u16` followed by its `Display` (`to_string`).
/// Claimed: the text is the code in decimal, a space, and the reason phrase
/// `status_reason(code)`, a function of the code alone (`Display` writes
/// `"{} {}"` of the number and `canonical_reason().unwrap_or(..)`).
/// `from_u16` accepts exactly the codes 100..=999, which `requires` asks for.
#[verifier::external_body]
fn status_display(code: u16) -> (r: String)
    requires
        100 <= code <= 999,
    ensures
        r@ == int_text(code as int) + " "@ + status_reason(code),
{
    match reqwest::StatusCode::from_u16(code) {
        Ok(status) => status.to_string(),
        Err(_) => String::new(),
    }
}

/// A 2xx status, as `StatusCode::is_success` decides it.
pub open spec fn is_success(code: u16) -> bool {
    200 <= code < 300
}

/// Whether a status code is a success (200..=299).
pub fn status_is_success(code: u16) -> (r: bool)
    ensures
        r == is_success(code),
{
    200 <= code && code < 300
}

/// Error text for an unsuccessful reply, given the status as displayed.
pub open spec fn http_error_text(status: Seq<char>) -> Seq<char> {
    "HTTP "@ + status
}

/// Error text of a refused token.
pub open spec fn auth_error_text() -> Seq<char> {
    "Auth error: invalid token"@
}

/// Outcome of a log reply's status, given the status as displayed: success
/// goes on, anything else is `HTTP <status>`.
pub fn status_outcome(code: u16, displayed: &str) -> (r: Result<(), String>)
    ensures
        r is Ok <==> is_success(code),
        r is Ok <==> 200 <= code < 300,
        r matches Err(e) ==> e@ == http_error_text(displayed@),
{
    if status_is_success(code) {
        Ok(())
    } else {
        let mut e = String::from_str("HTTP ");
        e.append(displayed);
        Err(e)
    }
}

/// Outcome of a balance reply's status, given the status as displayed:
/// 401 and 403 mean the token was refused; any other status outside 2xx is
/// `HTTP <status>`.
pub fn balance_status_outcome(code: u16, displayed: &str) -> (r: Result<(), String>)
    ensures
        r is Ok <==> is_success(code),
        r is Ok <==> 200 <= code < 300,
        r matches Err(e) ==> e@ == (if code == 401 || code == 403 {
            auth_error_text()
        } else {
            http_error_text(displayed@)
        }),
{
    if code == 401 || code == 403 {
        Err(String::from_str("Auth error: invalid token"))
    } else {
        status_outcome(code, displayed)
    }
}

/// Checks the status of a log or statistics reply.
pub fn check_status(code: u16) -> (r: Result<(), String>)
    requires
        100 <= code <= 999,
    ensures
        r is Ok <==> is_success(code),
        r is Ok <==> 200 <= code < 300,
        r matches Err(e) ==> e@ == http_error_text(status_text(code)),
{
    if status_is_success(code) {
        Ok(())
    } else {
        let displayed = status_display(code);
        status_outcome(code, displayed.as_str())
    }
}

/// Checks the status of a balance reply.
pub fn check_balance_status(code: u16) -> (r: Result<(), String>)
    requires
        100 <= code <= 999,
    ensures
        r is Ok <==> is_success(code),
        r is Ok <==> 200 <= code < 300,
        r matches Err(e) ==> e@ == (if code == 401 || code == 403 {
            auth_error_text()
        } else {
            http_error_text(status_text(code))
        }),
{
    if status_is_success(code) {
        Ok(())
    } else {
        let displayed = status_display(code);
        balance_status_outcome(code, displayed.as_str())
    }
}

/// Which part of a reply was expected.
#[derive(Clone, Copy, Debug, PartialEq, Eq)]
pub enum Expected {
    Token,
    Logs,
    Stats,
}

/// Error text when the expected part of a reply is absent.
pub open spec fn missing_text(what: Expected) -> Seq<char> {
    match what {
        Expected::Token => "No token data in response"@,
        Expected::Logs => "No log data in response"@,
        Expected::Stats => "No stat data in response"@,
    }
}

/// Takes the expected part out of a reply, or names what was missing.
pub fn require_data<T>(data: Option<T>, what: Expected) -> (r: Result<T, String>)
    ensures
        r is Ok <==> data is Some,
        data matches Some(v) ==> r == Ok::<T, String>(v),
        r matches Err(e) ==> e@ == missing_text(what),
{
    match data {
        Some(v) => Ok(v),
        None => Err(match what {
            Expected::Token => String::from_str("No token data in response"),
            Expected::Logs => String::from_str("No log data in response"),
            Expected::Stats => String::from_str("No stat data in response"),
        }),
    }
}

} // verus!
