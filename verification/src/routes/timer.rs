//! Query parameters of the timer routes.
use vstd::prelude::*;
use crate::error::AppError;
use crate::routes::queue_task::{number_param, number_param_or};
use crate::text::parse_i64_spec;
use crate::time::{parse_utc_datetime, utc_datetime_reading};

verus! {

/// The instant (RFC 3339 text) and page size of a request for the timers
/// due before an instant: `before` must be given and read as a UTC
/// date-time; the page size is 100 unless given.
pub fn find_before_params(before: &Option<String>, limit: &Option<String>) -> (r: Result<(String, i64), AppError>)
    ensures
        match before {
            None => r matches Err(AppError::BadRequest(m)) && m@ == "缺少 before 参数"@,
            Some(b) => match utc_datetime_reading(b@) {
                Ok(t) => r matches Ok((u, n)) && u@ == t && n == number_param(*limit, 100),
                Err(e) => r matches Err(AppError::BadRequest(m)) && m@ == "时间格式错误: "@ + e,
            },
        },
{
    match before {
        None => Err(AppError::BadRequest(String::from_str("缺少 before 参数"))),
        Some(b) => match parse_utc_datetime(b.as_str()) {
            Ok(t) => Ok((t, number_param_or(limit, 100))),
            Err(e) => {
                let mut m = String::from_str("时间格式错误: ");
                m.append(e.as_str());
                Err(AppError::BadRequest(m))
            },
        },
    }
}

/// A request for the timers due before an instant uses the page size
/// given (any `i64` that it reads as), 100 if it is not given or does not
/// read as a number.
pub proof fn lemma_due_timers_page_as_asked(
    before: Option<String>,
    limit: Option<String>,
    r: Result<(String, i64), AppError>,
)
    requires
        call_ensures(find_before_params, (&before, &limit), r),
    ensures
        r matches Ok((_, n)) ==> match limit {
            None => n == 100,
            Some(l) => match parse_i64_spec(l@) {
                Some(m) => n == m,
                None => n == 100,
            },
        },
{
}

} // verus!
