//! Query parameters of the queue task routes.
use vstd::prelude::*;
use crate::error::AppError;
use crate::text::{decimal_text, lemma_decimal_text_parses_back, parse_i64, parse_i64_spec};
use crate::time::{naive_datetime_reading, parse_naive_datetime};

verus! {

/// A numeric query parameter: its decimal value, or `default` if it is
/// missing or does not read as an `i64`.
pub open spec fn number_param(v: Option<String>, default: i64) -> i64 {
    match v {
        Some(s) => match parse_i64_spec(s@) {
            Some(n) => n,
            None => default,
        },
        None => default,
    }
}

/// Reads a numeric query parameter, falling back to `default`.
pub fn number_param_or(v: &Option<String>, default: i64) -> (r: i64)
    ensures
        r == number_param(*v, default),
{
    match v {
        Some(s) => match parse_i64(s.as_str()) {
            Some(n) => n,
            None => default,
        },
        None => default,
    }
}

/// The status, page size and offset of a queue task list request:
/// `pending`, 100 and 0 unless given.
pub fn list_by_status_params(status: Option<String>, limit: &Option<String>, offset: &Option<String>) -> (r: (String, i64, i64))
    ensures
        r.0@ == match status {
            Some(s) => s@,
            None => "pending"@,
        },
        r.1 == number_param(*limit, 100),
        r.2 == number_param(*offset, 0),
{
    let s = match status {
        Some(s) => s,
        None => String::from_str("pending"),
    };
    (s, number_param_or(limit, 100), number_param_or(offset, 0))
}

/// The instant (RFC 3339 text) and page size of a request for the tasks
/// to retry: `before` must be given and read as a date-time; the page
/// size is 50 unless given.
pub fn list_to_retry_params(before: &Option<String>, limit: &Option<String>) -> (r: Result<(String, i64), AppError>)
    ensures
        match before {
            None => r matches Err(AppError::BadRequest(m)) && m@ == "missing 'before' param"@,
            Some(b) => match naive_datetime_reading(b@) {
                Ok(t) => r matches Ok((u, n)) && u@ == t && n == number_param(*limit, 50),
                Err(e) => r matches Err(AppError::BadRequest(m)) && m@ == "invalid datetime: "@ + e,
            },
        },
{
    match before {
        None => Err(AppError::BadRequest(String::from_str("missing 'before' param"))),
        Some(b) => match parse_naive_datetime(b.as_str()) {
            Ok(t) => Ok((t, number_param_or(limit, 50))),
            Err(e) => {
                let mut m = String::from_str("invalid datetime: ");
                m.append(e.as_str());
                Err(AppError::BadRequest(m))
            },
        },
    }
}

/// A numeric parameter that reads as an `i64` is used as given, however
/// large or small; only an absent parameter, or one that does not read as
/// an `i64`, gives the default.
pub proof fn lemma_number_param_used_as_given(v: Option<String>, default: i64, r: i64)
    requires
        call_ensures(number_param_or, (&v, default), r),
    ensures
        v is None ==> r == default,
        v matches Some(s) ==> match parse_i64_spec(s@) {
            Some(n) => r == n,
            None => r == default,
        },
{
}

/// The decimal text of any non-negative `i64` is read back as that
/// number, whatever the default.
pub proof fn lemma_decimal_param_reads_back(s: String, n: nat, default: i64, r: i64)
    requires
        n <= i64::MAX,
        s@ == decimal_text(n),
        call_ensures(number_param_or, (&Some(s), default), r),
    ensures
        r == n,
{
    lemma_decimal_text_parses_back(n);
}

/// A list request by status pages exactly as asked: the status, page size
/// and offset given are used as given (any `i64` that they read as); the
/// status `pending`, page size 100 and offset 0 stand in for what is not
/// given or does not read as a number.
pub proof fn lemma_list_by_status_pages_as_asked(
    status: Option<String>,
    limit: Option<String>,
    offset: Option<String>,
    r: (String, i64, i64),
)
    requires
        call_ensures(list_by_status_params, (status, &limit, &offset), r),
    ensures
        status matches Some(st) ==> r.0@ == st@,
        status is None ==> r.0@ == "pending"@,
        limit is None ==> r.1 == 100,
        limit matches Some(l) ==> match parse_i64_spec(l@) {
            Some(n) => r.1 == n,
            None => r.1 == 100,
        },
        offset is None ==> r.2 == 0,
        offset matches Some(o) ==> match parse_i64_spec(o@) {
            Some(n) => r.2 == n,
            None => r.2 == 0,
        },
{
}

/// A request for the tasks to retry uses the page size given (any `i64`
/// that it reads as), 50 if it is not given or does not read as a number.
pub proof fn lemma_retry_list_page_as_asked(
    before: Option<String>,
    limit: Option<String>,
    r: Result<(String, i64), AppError>,
)
    requires
        call_ensures(list_to_retry_params, (&before, &limit), r),
    ensures
        r matches Ok((_, n)) ==> match limit {
            None => n == 50,
            Some(l) => match parse_i64_spec(l@) {
                Some(m) => n == m,
                None => n == 50,
            },
        },
{
}

} // verus!
