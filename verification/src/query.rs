use vstd::prelude::*;

use crate::reply::{ErrorReply, Reply, error_reply, is_error_reply, is_failure, is_listing, listing_reply, not_found_message, pair_views};
use crate::text::{contains_string, join_strings, seq_join, string_views};

verus! {

/// The query parameters of `GET /v1/sentiments`, each optional.
pub struct SentimentsParams {
    /// Exact league id.
    pub league: Option<String>,
    /// Exact season.
    pub season: Option<String>,
    /// Exact overall sentiment label.
    pub label: Option<String>,
    /// Part of the team name.
    pub team: Option<String>,
    /// Part of the key topics.
    pub topic: Option<String>,
    /// Field to sort by.
    pub sort: Option<String>,
    /// Sort direction, `asc` or `desc`.
    pub order: Option<String>,
}

/// An SQL statement together with the values bound to its `?` placeholders, in order.
pub struct SqlQuery {
    pub sql: String,
    pub params: Vec<String>,
}

/// The columns of one sentiment record, in the order the listing reads them.
pub const SENTIMENTS_SELECT: &'static str = "SELECT id, team_id, team_name, league_id, league_name, season, snapshot_date, overall_score, overall_label, performance_score, management_score, transfers_score, atmosphere_score, key_topics, fan_voice_summary, positive_highlights, negative_highlights FROM team_sentiment";

/// Leagues with the number of records of each, the most populous first.
pub const LEAGUES_SELECT: &'static str = "SELECT league_id, league_name, COUNT(*) as team_count FROM team_sentiment GROUP BY league_id, league_name ORDER BY team_count DESC";

/// Seasons with their number of records and latest snapshot date, the most recent first.
pub const SEASONS_SELECT: &'static str = "SELECT season, COUNT(*) as snapshot_count, MAX(snapshot_date) as latest_snapshot_date FROM team_sentiment GROUP BY season ORDER BY latest_snapshot_date DESC";

/// The fields a listing may be sorted by, in the order the error message names them.
pub open spec fn sort_fields() -> Seq<Seq<char>> {
    seq![
        "overall_score"@,
        "performance_score"@,
        "management_score"@,
        "transfers_score"@,
        "atmosphere_score"@,
    ]
}

/// The fields a listing may be sorted by.
pub fn sort_field_names() -> (res: Vec<String>)
    ensures
        string_views(res@) == sort_fields(),
{
    let mut v: Vec<String> = Vec::new();
    v.push(String::from_str("overall_score"));
    v.push(String::from_str("performance_score"));
    v.push(String::from_str("management_score"));
    v.push(String::from_str("transfers_score"));
    v.push(String::from_str("atmosphere_score"));
    assert(string_views(v@) =~= sort_fields());
    v
}

pub open spec fn opt_view(o: Option<String>) -> Option<Seq<char>> {
    match o {
        Some(s) => Some(s@),
        None => None,
    }
}

/// `sort` is absent or names one of the sort fields.
pub open spec fn sort_is_valid(p: SentimentsParams) -> bool {
    match p.sort {
        Some(s) => sort_fields().contains(s@),
        None => true,
    }
}

/// `order` is absent, `asc` or `desc`.
pub open spec fn order_is_valid(p: SentimentsParams) -> bool {
    match p.order {
        Some(o) => o@ == "asc"@ || o@ == "desc"@,
        None => true,
    }
}

pub open spec fn params_are_valid(p: SentimentsParams) -> bool {
    sort_is_valid(p) && order_is_valid(p)
}

pub open spec fn sort_error_message() -> Seq<char> {
    "Invalid value for 'sort'. Allowed values: "@ + seq_join(sort_fields(), ", "@) + "."@
}

pub open spec fn order_error_message() -> Seq<char> {
    "Invalid value for 'order'. Allowed values: asc, desc."@
}

/// Checks `sort` and then `order`; the first one that is invalid is answered
/// with a `400` reply naming the allowed values.
pub fn check_params(p: &SentimentsParams) -> (res: Result<(), ErrorReply>)
    ensures
        res is Ok <==> params_are_valid(*p),
        !sort_is_valid(*p) ==> (res matches Err(e) && is_error_reply(e, 400, sort_error_message())),
        sort_is_valid(*p) && !order_is_valid(*p) ==> (res matches Err(e) && is_error_reply(
            e,
            400,
            order_error_message(),
        )),
{
    if let Some(sort) = &p.sort {
        let fields = sort_field_names();
        if !contains_string(&fields, sort) {
            let mut message = String::from_str("Invalid value for 'sort'. Allowed values: ");
            let allowed = join_strings(&fields, ", ");
            message.append(allowed.as_str());
            message.append(".");
            return Err(error_reply(400, message));
        }
    }
    if let Some(order) = &p.order {
        let asc = String::from_str("asc");
        let desc = String::from_str("desc");
        if !(*order == asc || *order == desc) {
            return Err(
                error_reply(400, String::from_str("Invalid value for 'order'. Allowed values: asc, desc.")),
            );
        }
    }
    Ok(())
}

/// One entry when the filter is given, none otherwise.
pub open spec fn clause_if(value: Option<String>, clause: Seq<char>) -> Seq<Seq<char>> {
    match value {
        Some(_) => seq![clause],
        None => Seq::empty(),
    }
}

/// The value bound for an exact-match filter.
pub open spec fn exact_param(value: Option<String>) -> Seq<Seq<char>> {
    match value {
        Some(v) => seq![v@],
        None => Seq::empty(),
    }
}

/// `%value%`: matches any text that contains `value`.
pub open spec fn like_pattern(value: Seq<char>) -> Seq<char> {
    "%"@ + value + "%"@
}

/// The value bound for a partial-match filter.
pub open spec fn like_param(value: Option<String>) -> Seq<Seq<char>> {
    match value {
        Some(v) => seq![like_pattern(v@)],
        None => Seq::empty(),
    }
}

/// The conditions of the `WHERE` clause, one per given filter, in the order
/// league, season, label, team, topic.
pub open spec fn filter_clauses(p: SentimentsParams) -> Seq<Seq<char>> {
    clause_if(p.league, "league_id = ?"@) + clause_if(p.season, "season = ?"@) + clause_if(
        p.label,
        "overall_label = ?"@,
    ) + clause_if(p.team, "team_name LIKE ?"@) + clause_if(p.topic, "key_topics LIKE ?"@)
}

/// The values bound to the placeholders of `filter_clauses(p)`, in the same order.
pub open spec fn filter_params(p: SentimentsParams) -> Seq<Seq<char>> {
    exact_param(p.league) + exact_param(p.season) + exact_param(p.label) + like_param(p.team)
        + like_param(p.topic)
}

pub open spec fn where_part(clauses: Seq<Seq<char>>) -> Seq<char> {
    if clauses.len() == 0 {
        Seq::empty()
    } else {
        " WHERE "@ + seq_join(clauses, " AND "@)
    }
}

/// The upper-case sort direction of a valid `order`: `DESC` for `desc`, `ASC` otherwise.
pub open spec fn order_keyword(order: Option<String>) -> Seq<char> {
    match order {
        Some(o) => if o@ == "desc"@ { "DESC"@ } else { "ASC"@ },
        None => "ASC"@,
    }
}

pub open spec fn order_part(sort: Option<String>, order: Option<String>) -> Seq<char> {
    match sort {
        Some(f) => " ORDER BY "@ + f@ + " "@ + order_keyword(order),
        None => Seq::empty(),
    }
}

/// The statement that lists the records matching `p`.
pub open spec fn sentiments_sql(p: SentimentsParams) -> Seq<char> {
    SENTIMENTS_SELECT@ + where_part(filter_clauses(p)) + order_part(p.sort, p.order)
}

fn push_like_pattern(params: &mut Vec<String>, value: &String)
    ensures
        string_views(final(params)@) == string_views(old(params)@).push(like_pattern(value@)),
{
    let mut pattern = String::from_str("%");
    pattern.append(value.as_str());
    pattern.append("%");
    params.push(pattern);
    assert(string_views(params@) =~= string_views(old(params)@).push(like_pattern(value@)));
}

fn push_text(list: &mut Vec<String>, text: &str)
    ensures
        string_views(final(list)@) == string_views(old(list)@).push(text@),
{
    list.push(String::from_str(text));
    assert(string_views(list@) =~= string_views(old(list)@).push(text@));
}

/// The `WHERE` conditions and their bound values for the filters given in `p`.
pub fn filter_terms(p: &SentimentsParams) -> (res: (Vec<String>, Vec<String>))
    ensures
        string_views(res.0@) == filter_clauses(*p),
        string_views(res.1@) == filter_params(*p),
{
    let mut clauses: Vec<String> = Vec::new();
    let mut params: Vec<String> = Vec::new();
    assert(string_views(clauses@) =~= Seq::<Seq<char>>::empty());
    assert(string_views(params@) =~= Seq::<Seq<char>>::empty());
    if let Some(v) = &p.league {
        push_text(&mut clauses, "league_id = ?");
        push_text(&mut params, v.as_str());
    }
    assert(string_views(clauses@) =~= clause_if(p.league, "league_id = ?"@));
    assert(string_views(params@) =~= exact_param(p.league));
    if let Some(v) = &p.season {
        push_text(&mut clauses, "season = ?");
        push_text(&mut params, v.as_str());
    }
    assert(string_views(clauses@) =~= clause_if(p.league, "league_id = ?"@) + clause_if(
        p.season,
        "season = ?"@,
    ));
    assert(string_views(params@) =~= exact_param(p.league) + exact_param(p.season));
    if let Some(v) = &p.label {
        push_text(&mut clauses, "overall_label = ?");
        push_text(&mut params, v.as_str());
    }
    assert(string_views(clauses@) =~= clause_if(p.league, "league_id = ?"@) + clause_if(
        p.season,
        "season = ?"@,
    ) + clause_if(p.label, "overall_label = ?"@));
    assert(string_views(params@) =~= exact_param(p.league) + exact_param(p.season)
        + exact_param(p.label));
    if let Some(v) = &p.team {
        push_text(&mut clauses, "team_name LIKE ?");
        push_like_pattern(&mut params, v);
    }
    assert(string_views(clauses@) =~= clause_if(p.league, "league_id = ?"@) + clause_if(
        p.season,
        "season = ?"@,
    ) + clause_if(p.label, "overall_label = ?"@) + clause_if(p.team, "team_name LIKE ?"@));
    assert(string_views(params@) =~= exact_param(p.league) + exact_param(p.season)
        + exact_param(p.label) + like_param(p.team));
    if let Some(v) = &p.topic {
        push_text(&mut clauses, "key_topics LIKE ?");
        push_like_pattern(&mut params, v);
    }
    assert(string_views(clauses@) =~= filter_clauses(*p));
    assert(string_views(params@) =~= filter_params(*p));
    (clauses, params)
}

/// The statement and bound values that list the records matching `p`.
/// Filter values are only ever bound as parameters; the statement text takes
/// from `p` only the sort field and direction, which `p` must hold valid.
pub fn sentiments_query(p: &SentimentsParams) -> (res: SqlQuery)
    requires
        params_are_valid(*p),
    ensures
        res.sql@ == sentiments_sql(*p),
        string_views(res.params@) == filter_params(*p),
{
    let (clauses, params) = filter_terms(p);
    let mut sql = String::from_str(SENTIMENTS_SELECT);
    if clauses.len() != 0 {
        sql.append(" WHERE ");
        let joined = join_strings(&clauses, " AND ");
        sql.append(joined.as_str());
    }
    assert(sql@ == SENTIMENTS_SELECT@ + where_part(filter_clauses(*p)));
    if let Some(field) = &p.sort {
        sql.append(" ORDER BY ");
        sql.append(field.as_str());
        sql.append(" ");
        let desc = match &p.order {
            Some(o) => *o == String::from_str("desc"),
            None => false,
        };
        if desc {
            sql.append("DESC");
        } else {
            sql.append("ASC");
        }
    }
    assert(sql@ =~= sentiments_sql(*p));
    SqlQuery { sql, params }
}

/// Validates `p` and, when it is valid, plans the listing query; otherwise
/// returns the `400` reply of `check_params`.
pub fn plan_sentiments(p: &SentimentsParams) -> (res: Result<SqlQuery, ErrorReply>)
    ensures
        res is Ok <==> params_are_valid(*p),
        res matches Ok(q) ==> q.sql@ == sentiments_sql(*p) && string_views(q.params@)
            == filter_params(*p),
        !sort_is_valid(*p) ==> (res matches Err(e) && is_error_reply(e, 400, sort_error_message())),
        sort_is_valid(*p) && !order_is_valid(*p) ==> (res matches Err(e) && is_error_reply(
            e,
            400,
            order_error_message(),
        )),
{
    match check_params(p) {
        Ok(()) => Ok(sentiments_query(p)),
        Err(e) => Err(e),
    }
}

/// One (name, value) pair when the parameter is given, none otherwise.
pub open spec fn named_if(name: Seq<char>, value: Option<String>) -> Seq<(Seq<char>, Seq<char>)> {
    match value {
        Some(v) => seq![(name, v@)],
        None => Seq::empty(),
    }
}

/// The parameters that were given, by name and with the value as received, in
/// the order league, season, label, team, topic, sort, order.
pub open spec fn applied_filters(p: SentimentsParams) -> Seq<(Seq<char>, Seq<char>)> {
    named_if("league"@, p.league) + named_if("season"@, p.season) + named_if("label"@, p.label)
        + named_if("team"@, p.team) + named_if("topic"@, p.topic) + named_if("sort"@, p.sort)
        + named_if("order"@, p.order)
}

fn push_named(list: &mut Vec<(String, String)>, name: &str, value: &Option<String>)
    ensures
        pair_views(final(list)@) == pair_views(old(list)@) + named_if(name@, *value),
{
    if let Some(v) = value {
        list.push((String::from_str(name), v.clone()));
    }
    assert(pair_views(list@) =~= pair_views(old(list)@) + named_if(name@, *value));
}

/// The given parameters as (name, value) pairs; see `applied_filters`.
pub fn filters_applied(p: &SentimentsParams) -> (res: Vec<(String, String)>)
    ensures
        pair_views(res@) == applied_filters(*p),
{
    let mut list: Vec<(String, String)> = Vec::new();
    assert(pair_views(list@) =~= Seq::<(Seq<char>, Seq<char>)>::empty());
    push_named(&mut list, "league", &p.league);
    push_named(&mut list, "season", &p.season);
    push_named(&mut list, "label", &p.label);
    push_named(&mut list, "team", &p.team);
    push_named(&mut list, "topic", &p.topic);
    push_named(&mut list, "sort", &p.sort);
    push_named(&mut list, "order", &p.order);
    assert(pair_views(list@) =~= applied_filters(*p));
    list
}

/// The reply of `GET /v1/sentiments` once the planned query has run: `500` with
/// the database's message when it failed, `404` when it found no record, and
/// otherwise the records with their count and the applied filters.
pub fn sentiments_reply<T>(p: &SentimentsParams, outcome: Result<Vec<T>, String>) -> (res: Reply<T>)
    ensures
        outcome matches Err(m) ==> is_failure(res, 500, m@),
        outcome matches Ok(rows) ==> (if rows.len() == 0 {
            is_failure(res, 404, not_found_message())
        } else {
            is_listing(res, rows@, Some(applied_filters(*p)))
        }),
{
    let filters = filters_applied(p);
    listing_reply(outcome, filters)
}

/// Filter values reach the database only as bound values: two parameter sets
/// that give the same filters, whatever their values, and the same sort field
/// and direction are planned as the same statement text.
pub proof fn lemma_statement_ignores_filter_values(p: SentimentsParams, q: SentimentsParams)
    requires
        (p.league is Some) == (q.league is Some),
        (p.season is Some) == (q.season is Some),
        (p.label is Some) == (q.label is Some),
        (p.team is Some) == (q.team is Some),
        (p.topic is Some) == (q.topic is Some),
        opt_view(p.sort) == opt_view(q.sort),
        opt_view(p.order) == opt_view(q.order),
    ensures
        sentiments_sql(p) == sentiments_sql(q),
{
    assert(filter_clauses(p) == filter_clauses(q));
    assert(order_keyword(p.order) == order_keyword(q.order));
    assert(order_part(p.sort, p.order) == order_part(q.sort, q.order));
}

/// Every condition of the `WHERE` clause has exactly one bound value.
pub proof fn lemma_one_value_per_condition(p: SentimentsParams)
    ensures
        filter_clauses(p).len() == filter_params(p).len(),
{
}

/// A statement without conditions and without sorting is the plain column
/// selection; it has no bound values.
pub proof fn lemma_unfiltered_statement(p: SentimentsParams)
    requires
        p.league is None,
        p.season is None,
        p.label is None,
        p.team is None,
        p.topic is None,
        p.sort is None,
    ensures
        sentiments_sql(p) == SENTIMENTS_SELECT@,
        filter_params(p).len() == 0,
{
    assert(filter_clauses(p) =~= Seq::<Seq<char>>::empty());
    assert(sentiments_sql(p) =~= SENTIMENTS_SELECT@);
}

/// Each given filter is a condition of the `WHERE` clause whose bound value is
/// the filter's value: league, season and label compare for equality with the
/// value itself, team and topic match any text containing the value.
pub proof fn lemma_given_filters_are_bound(p: SentimentsParams)
    ensures
        p.league matches Some(v) ==> exists|i: int|
            0 <= i < filter_clauses(p).len() && #[trigger] filter_clauses(p)[i] == "league_id = ?"@
                && filter_params(p)[i] == v@,
        p.season matches Some(v) ==> exists|i: int|
            0 <= i < filter_clauses(p).len() && #[trigger] filter_clauses(p)[i] == "season = ?"@
                && filter_params(p)[i] == v@,
        p.label matches Some(v) ==> exists|i: int|
            0 <= i < filter_clauses(p).len() && #[trigger] filter_clauses(p)[i]
                == "overall_label = ?"@ && filter_params(p)[i] == v@,
        p.team matches Some(v) ==> exists|i: int|
            0 <= i < filter_clauses(p).len() && #[trigger] filter_clauses(p)[i]
                == "team_name LIKE ?"@ && filter_params(p)[i] == "%"@ + v@ + "%"@,
        p.topic matches Some(v) ==> exists|i: int|
            0 <= i < filter_clauses(p).len() && #[trigger] filter_clauses(p)[i]
                == "key_topics LIKE ?"@ && filter_params(p)[i] == "%"@ + v@ + "%"@,
{
    let c0 = clause_if(p.league, "league_id = ?"@);
    let c1 = clause_if(p.season, "season = ?"@);
    let c2 = clause_if(p.label, "overall_label = ?"@);
    let c3 = clause_if(p.team, "team_name LIKE ?"@);
    let c4 = clause_if(p.topic, "key_topics LIKE ?"@);
    let v0 = exact_param(p.league);
    let v1 = exact_param(p.season);
    let v2 = exact_param(p.label);
    let v3 = like_param(p.team);
    let v4 = like_param(p.topic);
    let cs = filter_clauses(p);
    let vs = filter_params(p);
    assert(cs == c0 + c1 + c2 + c3 + c4);
    assert(vs == v0 + v1 + v2 + v3 + v4);
    if p.league is Some {
        assert(cs[0] == c0[0] && vs[0] == v0[0]);
    }
    if p.season is Some {
        let i = c0.len() as int;
        assert(cs[i] == c1[0] && vs[i] == v1[0]);
    }
    if p.label is Some {
        let i = (c0.len() + c1.len()) as int;
        assert(cs[i] == c2[0] && vs[i] == v2[0]);
    }
    if p.team is Some {
        let i = (c0.len() + c1.len() + c2.len()) as int;
        assert(cs[i] == c3[0] && vs[i] == v3[0]);
    }
    if p.topic is Some {
        let i = (c0.len() + c1.len() + c2.len() + c3.len()) as int;
        assert(cs[i] == c4[0] && vs[i] == v4[0]);
    }
}

/// The `WHERE` clause holds nothing but the given filters: one condition per
/// given filter, each paired with that filter's value.
pub proof fn lemma_only_given_filters_are_bound(p: SentimentsParams)
    ensures
        filter_clauses(p).len() == filter_params(p).len(),
        filter_clauses(p).len() == (if p.league is Some { 1int } else { 0 }) + (if p.season is Some {
            1int
        } else {
            0
        }) + (if p.label is Some { 1int } else { 0 }) + (if p.team is Some { 1int } else { 0 }) + (
        if p.topic is Some {
            1int
        } else {
            0
        }),
        forall|i: int|
            0 <= i < filter_clauses(p).len() ==> {
                let c = #[trigger] filter_clauses(p)[i];
                let v = filter_params(p)[i];
                ||| p.league matches Some(x) && c == "league_id = ?"@ && v == x@
                ||| p.season matches Some(x) && c == "season = ?"@ && v == x@
                ||| p.label matches Some(x) && c == "overall_label = ?"@ && v == x@
                ||| p.team matches Some(x) && c == "team_name LIKE ?"@ && v == "%"@ + x@ + "%"@
                ||| p.topic matches Some(x) && c == "key_topics LIKE ?"@ && v == "%"@ + x@ + "%"@
            },
{
    let c0 = clause_if(p.league, "league_id = ?"@);
    let c1 = clause_if(p.season, "season = ?"@);
    let c2 = clause_if(p.label, "overall_label = ?"@);
    let c3 = clause_if(p.team, "team_name LIKE ?"@);
    let c4 = clause_if(p.topic, "key_topics LIKE ?"@);
    let v0 = exact_param(p.league);
    let v1 = exact_param(p.season);
    let v2 = exact_param(p.label);
    let v3 = like_param(p.team);
    let v4 = like_param(p.topic);
    let cs = filter_clauses(p);
    let vs = filter_params(p);
    assert(cs == c0 + c1 + c2 + c3 + c4);
    assert(vs == v0 + v1 + v2 + v3 + v4);
    let n0 = c0.len() as int;
    let n1 = n0 + c1.len();
    let n2 = n1 + c2.len();
    let n3 = n2 + c3.len();
    assert forall|i: int| 0 <= i < cs.len() implies {
        let c = #[trigger] filter_clauses(p)[i];
        let v = filter_params(p)[i];
        ||| p.league matches Some(x) && c == "league_id = ?"@ && v == x@
        ||| p.season matches Some(x) && c == "season = ?"@ && v == x@
        ||| p.label matches Some(x) && c == "overall_label = ?"@ && v == x@
        ||| p.team matches Some(x) && c == "team_name LIKE ?"@ && v == "%"@ + x@ + "%"@
        ||| p.topic matches Some(x) && c == "key_topics LIKE ?"@ && v == "%"@ + x@ + "%"@
    } by {
        if i < n0 {
            assert(cs[i] == c0[i] && vs[i] == v0[i]);
        } else if i < n1 {
            assert(cs[i] == c1[i - n0] && vs[i] == v1[i - n0]);
        } else if i < n2 {
            assert(cs[i] == c2[i - n1] && vs[i] == v2[i - n1]);
        } else if i < n3 {
            assert(cs[i] == c3[i - n2] && vs[i] == v3[i - n2]);
        } else {
            assert(cs[i] == c4[i - n3] && vs[i] == v4[i - n3]);
        }
    }
}

/// Without sorting, the statement is the column selection followed, when any
/// filter is given, by ` WHERE ` and the conditions joined by ` AND `.
pub proof fn lemma_statement_without_sort(p: SentimentsParams)
    requires
        p.sort is None,
    ensures
        filter_clauses(p).len() == 0 ==> sentiments_sql(p) == SENTIMENTS_SELECT@,
        filter_clauses(p).len() > 0 ==> sentiments_sql(p) == SENTIMENTS_SELECT@ + " WHERE "@
            + seq_join(filter_clauses(p), " AND "@),
{
    assert(sentiments_sql(p) =~= SENTIMENTS_SELECT@ + where_part(filter_clauses(p)));
}

/// The same parameters without sort field and direction.
pub open spec fn unsorted(p: SentimentsParams) -> SentimentsParams {
    SentimentsParams {
        league: p.league,
        season: p.season,
        label: p.label,
        team: p.team,
        topic: p.topic,
        sort: None,
        order: None,
    }
}

/// Sorting appends ` ORDER BY <field> ASC` to the unsorted statement when the
/// order is absent or `asc`, and ` ORDER BY <field> DESC` when it is `desc`,
/// whatever filters are given; without a sort field the order changes nothing.
pub proof fn lemma_sort_appends_order_by(p: SentimentsParams)
    ensures
        p.order is None || opt_view(p.order) == Some("asc"@) ==> (p.sort matches Some(f)
            ==> sentiments_sql(p) == sentiments_sql(unsorted(p)) + " ORDER BY "@ + f@ + " "@
            + "ASC"@),
        opt_view(p.order) == Some("desc"@) ==> (p.sort matches Some(f) ==> sentiments_sql(p)
            == sentiments_sql(unsorted(p)) + " ORDER BY "@ + f@ + " "@ + "DESC"@),
        p.sort is None ==> sentiments_sql(p) == sentiments_sql(unsorted(p)),
{
    reveal_strlit("asc");
    reveal_strlit("desc");
    assert(filter_clauses(p) == filter_clauses(unsorted(p)));
    assert(sentiments_sql(unsorted(p)) =~= SENTIMENTS_SELECT@ + where_part(filter_clauses(p)));
    if let Some(o) = p.order {
        if o@ == "asc"@ {
            assert("asc"@.len() == 3 && "desc"@.len() == 4);
            assert(o@ != "desc"@);
        }
    }
}

/// A sort given as one of the five score fields and an order that is absent,
/// `asc` or `desc` are accepted.
pub proof fn lemma_known_sort_and_order_accepted(p: SentimentsParams)
    requires
        p.sort is None || opt_view(p.sort) == Some("overall_score"@) || opt_view(p.sort) == Some(
            "performance_score"@,
        ) || opt_view(p.sort) == Some("management_score"@) || opt_view(p.sort) == Some(
            "transfers_score"@,
        ) || opt_view(p.sort) == Some("atmosphere_score"@),
        p.order is None || opt_view(p.order) == Some("asc"@) || opt_view(p.order) == Some(
            "desc"@,
        ),
    ensures
        params_are_valid(p),
{
    if let Some(s) = p.sort {
        let fs = sort_fields();
        if s@ == "overall_score"@ {
            assert(fs[0] == s@);
        } else if s@ == "performance_score"@ {
            assert(fs[1] == s@);
        } else if s@ == "management_score"@ {
            assert(fs[2] == s@);
        } else if s@ == "transfers_score"@ {
            assert(fs[3] == s@);
        } else {
            assert(fs[4] == s@);
        }
    }
}

/// An order other than `asc` and `desc`, or a sort field other than the five
/// score fields, is refused.
pub proof fn lemma_unknown_sort_or_order_refused(p: SentimentsParams)
    ensures
        p.order matches Some(o) && o@ != "asc"@ && o@ != "desc"@ ==> !params_are_valid(p),
        p.sort matches Some(s) && s@ != "overall_score"@ && s@ != "performance_score"@ && s@
            != "management_score"@ && s@ != "transfers_score"@ && s@ != "atmosphere_score"@
            ==> !params_are_valid(p) && !sort_is_valid(p),
{
}

/// The refusal messages, spelled out.
pub proof fn lemma_error_messages()
    ensures
        sort_error_message()
            == "Invalid value for 'sort'. Allowed values: overall_score, performance_score, management_score, transfers_score, atmosphere_score."@,
        order_error_message() == "Invalid value for 'order'. Allowed values: asc, desc."@,
{
    reveal_strlit("Invalid value for 'sort'. Allowed values: ");
    reveal_strlit(", ");
    reveal_strlit(".");
    reveal_strlit("overall_score");
    reveal_strlit("performance_score");
    reveal_strlit("management_score");
    reveal_strlit("transfers_score");
    reveal_strlit("atmosphere_score");
    reveal_strlit(
        "Invalid value for 'sort'. Allowed values: overall_score, performance_score, management_score, transfers_score, atmosphere_score.",
    );
    let fs = sort_fields();
    let sep = ", "@;
    assert(fs.drop_last().drop_last().drop_last().drop_last() =~= seq![fs[0]]);
    assert(fs.drop_last().drop_last().drop_last() =~= seq![fs[0]].push(fs[1]));
    assert(fs.drop_last().drop_last() =~= seq![fs[0], fs[1]].push(fs[2]));
    assert(fs.drop_last() =~= seq![fs[0], fs[1], fs[2]].push(fs[3]));
    reveal_with_fuel(seq_join, 6);
    assert(seq_join(fs, sep) == fs[0] + sep + fs[1] + sep + fs[2] + sep + fs[3] + sep + fs[4]);
    assert(sort_error_message()
        =~= "Invalid value for 'sort'. Allowed values: overall_score, performance_score, management_score, transfers_score, atmosphere_score."@);
}

/// Pieces of the applied filters, one per parameter.
proof fn applied_filter_pieces(p: SentimentsParams)
    ensures
        applied_filters(p) == named_if("league"@, p.league) + named_if("season"@, p.season)
            + named_if("label"@, p.label) + named_if("team"@, p.team) + named_if("topic"@, p.topic)
            + named_if("sort"@, p.sort) + named_if("order"@, p.order),
{
}

/// The applied filters report each given parameter under its own name with
/// its value as received.
pub proof fn lemma_applied_filters_report_given_parameters(p: SentimentsParams)
    ensures
        p.league matches Some(v) ==> applied_filters(p).contains(("league"@, v@)),
        p.season matches Some(v) ==> applied_filters(p).contains(("season"@, v@)),
        p.label matches Some(v) ==> applied_filters(p).contains(("label"@, v@)),
        p.team matches Some(v) ==> applied_filters(p).contains(("team"@, v@)),
        p.topic matches Some(v) ==> applied_filters(p).contains(("topic"@, v@)),
        p.sort matches Some(v) ==> applied_filters(p).contains(("sort"@, v@)),
        p.order matches Some(v) ==> applied_filters(p).contains(("order"@, v@)),
{
    let a0 = named_if("league"@, p.league);
    let a1 = named_if("season"@, p.season);
    let a2 = named_if("label"@, p.label);
    let a3 = named_if("team"@, p.team);
    let a4 = named_if("topic"@, p.topic);
    let a5 = named_if("sort"@, p.sort);
    let a6 = named_if("order"@, p.order);
    let all = applied_filters(p);
    applied_filter_pieces(p);
    let n0 = a0.len() as int;
    let n1 = n0 + a1.len();
    let n2 = n1 + a2.len();
    let n3 = n2 + a3.len();
    let n4 = n3 + a4.len();
    let n5 = n4 + a5.len();
    if p.league is Some {
        assert(all[0] == a0[0]);
    }
    if p.season is Some {
        assert(all[n0] == a1[0]);
    }
    if p.label is Some {
        assert(all[n1] == a2[0]);
    }
    if p.team is Some {
        assert(all[n2] == a3[0]);
    }
    if p.topic is Some {
        assert(all[n3] == a4[0]);
    }
    if p.sort is Some {
        assert(all[n4] == a5[0]);
    }
    if p.order is Some {
        assert(all[n5] == a6[0]);
    }
}

/// A property that holds of every element of two sequences holds of every
/// element of their concatenation.
proof fn lemma_concat_all<A>(x: Seq<A>, y: Seq<A>, pred: spec_fn(A) -> bool)
    requires
        forall|i: int| 0 <= i < x.len() ==> pred(#[trigger] x[i]),
        forall|i: int| 0 <= i < y.len() ==> pred(#[trigger] y[i]),
    ensures
        forall|i: int| 0 <= i < (x + y).len() ==> pred(#[trigger] (x + y)[i]),
{
    assert forall|i: int| 0 <= i < (x + y).len() implies pred(#[trigger] (x + y)[i]) by {
        if i < x.len() {
            assert((x + y)[i] == x[i]);
        } else {
            assert((x + y)[i] == y[i - x.len()]);
        }
    }
}

/// The entry reports a given parameter under its name with its value.
pub open spec fn reports_given_parameter(p: SentimentsParams, e: (Seq<char>, Seq<char>)) -> bool {
    ||| p.league matches Some(v) && e == ("league"@, v@)
    ||| p.season matches Some(v) && e == ("season"@, v@)
    ||| p.label matches Some(v) && e == ("label"@, v@)
    ||| p.team matches Some(v) && e == ("team"@, v@)
    ||| p.topic matches Some(v) && e == ("topic"@, v@)
    ||| p.sort matches Some(v) && e == ("sort"@, v@)
    ||| p.order matches Some(v) && e == ("order"@, v@)
}

/// The applied filters hold nothing but the given parameters, each under its
/// own name with its value as received.
pub proof fn lemma_applied_filters_hold_only_given_parameters(p: SentimentsParams)
    ensures
        forall|i: int|
            0 <= i < applied_filters(p).len() ==> reports_given_parameter(
                p,
                #[trigger] applied_filters(p)[i],
            ),
{
    let pred = |e: (Seq<char>, Seq<char>)| reports_given_parameter(p, e);
    let a0 = named_if("league"@, p.league);
    let a1 = named_if("season"@, p.season);
    let a2 = named_if("label"@, p.label);
    let a3 = named_if("team"@, p.team);
    let a4 = named_if("topic"@, p.topic);
    let a5 = named_if("sort"@, p.sort);
    let a6 = named_if("order"@, p.order);
    applied_filter_pieces(p);
    assert(forall|i: int| 0 <= i < a0.len() ==> pred(#[trigger] a0[i]));
    assert(forall|i: int| 0 <= i < a1.len() ==> pred(#[trigger] a1[i]));
    assert(forall|i: int| 0 <= i < a2.len() ==> pred(#[trigger] a2[i]));
    assert(forall|i: int| 0 <= i < a3.len() ==> pred(#[trigger] a3[i]));
    assert(forall|i: int| 0 <= i < a4.len() ==> pred(#[trigger] a4[i]));
    assert(forall|i: int| 0 <= i < a5.len() ==> pred(#[trigger] a5[i]));
    assert(forall|i: int| 0 <= i < a6.len() ==> pred(#[trigger] a6[i]));
    lemma_concat_all(a0, a1, pred);
    lemma_concat_all(a0 + a1, a2, pred);
    lemma_concat_all(a0 + a1 + a2, a3, pred);
    lemma_concat_all(a0 + a1 + a2 + a3, a4, pred);
    lemma_concat_all(a0 + a1 + a2 + a3 + a4, a5, pred);
    lemma_concat_all(a0 + a1 + a2 + a3 + a4 + a5, a6, pred);
}

} // verus!
