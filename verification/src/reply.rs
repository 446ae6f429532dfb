use vstd::prelude::*;

verus! {

/// Whether the HTTP layer accepts `code` as a status code.
pub open spec fn is_valid_status(code: u16) -> bool {
    100 <= code && code <= 999
}

/// The status actually sent for an error with the given code: the code itself
/// when it is a valid HTTP status, `500` otherwise.
pub open spec fn spec_status_for(code: u16) -> u16 {
    if is_valid_status(code) { code } else { 500u16 }
}

/// Calls `axum::http::StatusCode::from_u16` and reports whether it accepted
/// `code`. The source of `from_u16` accepts exactly the codes 100 to 999.
#[verifier::external_body]
fn status_code_accepts(code: u16) -> (res: bool)
    ensures
        res == is_valid_status(code),
{
    axum::http::StatusCode::from_u16(code).is_ok()
}

/// The status sent for an error reply with code `code`.
pub fn status_for(code: u16) -> (res: u16)
    ensures
        res == spec_status_for(code),
{
    if status_code_accepts(code) {
        code
    } else {
        500
    }
}

/// An error reply: the HTTP status and the body `{"error": {"code", "message"}}`.
pub struct ErrorReply {
    pub status: u16,
    pub code: u16,
    pub message: String,
}

/// `e` is the error reply for `code` with `message`.
pub open spec fn is_error_reply(e: ErrorReply, code: u16, message: Seq<char>) -> bool {
    &&& e.status == spec_status_for(code)
    &&& e.code == code
    &&& e.message@ == message
}

/// The error reply with `code` and `message`; its status falls back to `500`
/// when `code` is no valid HTTP status, while the body keeps `code`.
pub fn error_reply(code: u16, message: String) -> (res: ErrorReply)
    ensures
        is_error_reply(res, code, message@),
{
    ErrorReply { status: status_for(code), code, message }
}

/// A successful listing: `{"count", "filters_applied"?, "data"}` sent with status 200.
pub struct Listing<T> {
    pub count: usize,
    /// The filters that were given, as (name, value) pairs; absent for the summaries.
    pub filters_applied: Option<Vec<(String, String)>>,
    pub data: Vec<T>,
}

/// What an endpoint answers.
pub enum Reply<T> {
    Success(Listing<T>),
    Failure(ErrorReply),
}

pub open spec fn not_found_message() -> Seq<char> {
    "No data found matching the applied filters."@
}

/// The character sequences of a list of (name, value) pairs.
pub open spec fn pair_views(list: Seq<(String, String)>) -> Seq<(Seq<char>, Seq<char>)> {
    list.map_values(|kv: (String, String)| (kv.0@, kv.1@))
}

/// `r` lists exactly `rows`, with the given filters.
pub open spec fn is_listing<T>(
    r: Reply<T>,
    rows: Seq<T>,
    filters: Option<Seq<(Seq<char>, Seq<char>)>>,
) -> bool {
    &&& r matches Reply::Success(l)
    &&& l.count == rows.len()
    &&& l.data@ == rows
    &&& match (l.filters_applied, filters) {
        (Some(f), Some(g)) => pair_views(f@) == g,
        (None, None) => true,
        _ => false,
    }
}

/// `r` is the error reply for `code` with `message`.
pub open spec fn is_failure<T>(r: Reply<T>, code: u16, message: Seq<char>) -> bool {
    r matches Reply::Failure(e) && is_error_reply(e, code, message)
}

/// The reply to a listing query: a failed query is answered with `500` and the
/// database's message, no rows with `404`, and rows with a listing that
/// carries them and the applied filters.
pub fn listing_reply<T>(
    outcome: Result<Vec<T>, String>,
    filters_applied: Vec<(String, String)>,
) -> (res: Reply<T>)
    ensures
        outcome matches Err(m) ==> is_failure(res, 500, m@),
        outcome matches Ok(rows) ==> (if rows.len() == 0 {
            is_failure(res, 404, not_found_message())
        } else {
            is_listing(res, rows@, Some(pair_views(filters_applied@)))
        }),
{
    match outcome {
        Err(m) => Reply::Failure(error_reply(500, m)),
        Ok(rows) => {
            if rows.len() == 0 {
                Reply::Failure(error_reply(404, String::from_str("No data found matching the applied filters.")))
            } else {
                Reply::Success(Listing { count: rows.len(), filters_applied: Some(filters_applied), data: rows })
            }
        },
    }
}

/// The reply to a summary query (leagues, seasons): a failed query is answered
/// with `500` and the database's message, otherwise all rows are listed, none too.
pub fn summary_reply<T>(outcome: Result<Vec<T>, String>) -> (res: Reply<T>)
    ensures
        outcome matches Err(m) ==> is_failure(res, 500, m@),
        outcome matches Ok(rows) ==> is_listing(res, rows@, None),
{
    match outcome {
        Err(m) => Reply::Failure(error_reply(500, m)),
        Ok(rows) => Reply::Success(Listing { count: rows.len(), filters_applied: None, data: rows }),
    }
}

/// An error is sent with its own code as status when that code lies between
/// 100 and 999, and with status 500 otherwise.
pub proof fn lemma_status_falls_back_to_500(code: u16)
    ensures
        100 <= code <= 999 ==> spec_status_for(code) == code,
        code < 100 || code > 999 ==> spec_status_for(code) == 500,
{
}

/// What the reply predicates promise of a reply: an error reply carries the
/// chosen status, the code as given and the message; a listing carries every
/// row, in order, their number and the given filters.
pub proof fn lemma_reply_predicates<T>(
    r: Reply<T>,
    code: u16,
    message: Seq<char>,
    rows: Seq<T>,
    filters: Option<Seq<(Seq<char>, Seq<char>)>>,
)
    ensures
        is_failure(r, code, message) ==> (r matches Reply::Failure(e) && e.code == code
            && e.message@ == message && (100 <= code <= 999 ==> e.status == code) && (code < 100
            || code > 999 ==> e.status == 500)),
        is_listing(r, rows, filters) ==> (r matches Reply::Success(l) && l.count == rows.len()
            && l.data@.len() == rows.len() && (forall|i: int|
            0 <= i < rows.len() ==> l.data@[i] == rows[i]) && (filters is None
            <==> l.filters_applied is None) && (filters matches Some(g) ==> (
        l.filters_applied matches Some(f) && f@.len() == g.len() && (forall|i: int|
            0 <= i < g.len() ==> f@[i].0@ == g[i].0 && f@[i].1@ == g[i].1)))),
{
}

/// The not-found message, spelled out.
pub proof fn lemma_not_found_message()
    ensures
        not_found_message() == "No data found matching the applied filters."@,
{
}

} // verus!
