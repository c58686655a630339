//! Instants are held as RFC 3339 text (the UTC instant, as
//! `chrono::DateTime::to_rfc3339` writes it). Reading the clock and
//! reading instants from request text are done by `chrono`.
use vstd::prelude::*;

verus! {

/// `chrono::Utc::now()`, written as RFC 3339 text. Which instant it is
/// the clock decides; the text is one that `DateTime<Utc>`'s reader takes
/// back as the same instant, written the same way. (`Utc::now` reads the
/// system clock as time since 1970; the writer gives a four-digit year for
/// every instant before the year 10000, the one form the reader takes.)
#[verifier::external_body]
pub(crate) fn utc_now() -> (r: String)
    ensures
        is_instant_text(r@),
{
    chrono::Utc::now().to_rfc3339()
}

/// How `s.parse::<chrono::NaiveDateTime>()` reads `s`: the instant, taken
/// as UTC and written as RFC 3339 text, or the parse error's text.
pub uninterp spec fn naive_datetime_reading(s: Seq<char>) -> Result<Seq<char>, Seq<char>>;

/// `s.parse::<chrono::NaiveDateTime>()`; the instant is written back as
/// RFC 3339 text of that UTC instant, the error as its `Display` text.
#[verifier::external_body]
pub(crate) fn parse_naive_datetime(s: &str) -> (r: Result<String, String>)
    ensures
        match (r, naive_datetime_reading(s@)) {
            (Ok(t), Ok(u)) => t@ == u,
            (Err(e), Err(u)) => e@ == u,
            _ => false,
        },
{
    match s.parse::<chrono::NaiveDateTime>() {
        Ok(t) => Ok(t.and_utc().to_rfc3339()),
        Err(e) => Err(e.to_string()),
    }
}

/// How `s.parse::<chrono::DateTime<chrono::Utc>>()` reads `s`: the instant
/// as RFC 3339 text, or the parse error's text.
pub uninterp spec fn utc_datetime_reading(s: Seq<char>) -> Result<Seq<char>, Seq<char>>;

/// An instant in RFC 3339 text as this library writes it: reading it as
/// a UTC date-time and writing that back gives the same text.
pub open spec fn is_instant_text(t: Seq<char>) -> bool {
    utc_datetime_reading(t) == Ok::<Seq<char>, Seq<char>>(t)
}

/// `s.parse::<chrono::DateTime<chrono::Utc>>()`; the instant is written
/// back as RFC 3339 text, the error as its `Display` text.
#[verifier::external_body]
pub(crate) fn parse_utc_datetime(s: &str) -> (r: Result<String, String>)
    ensures
        match (r, utc_datetime_reading(s@)) {
            (Ok(t), Ok(u)) => t@ == u,
            (Err(e), Err(u)) => e@ == u,
            _ => false,
        },
{
    match s.parse::<chrono::DateTime<chrono::Utc>>() {
        Ok(t) => Ok(t.to_rfc3339()),
        Err(e) => Err(e.to_string()),
    }
}

} // verus!
