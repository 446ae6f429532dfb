use rusqlite::Connection;
use soccer_sentiment::json_column::{decode_list_column, ListColumn};
use soccer_sentiment::query::{
    filters_applied, plan_sentiments, sentiments_reply, SentimentsParams, SqlQuery,
    LEAGUES_SELECT, SEASONS_SELECT,
};
use soccer_sentiment::reply::{summary_reply, Reply};

fn setup_test_db() -> Connection {
    let conn = Connection::open_in_memory().unwrap();
    conn.execute_batch(
        "CREATE TABLE team_sentiment (
            id INTEGER PRIMARY KEY AUTOINCREMENT,
            team_id TEXT NOT NULL, team_name TEXT NOT NULL,
            league_id TEXT NOT NULL, league_name TEXT NOT NULL,
            season TEXT NOT NULL, snapshot_date TEXT NOT NULL,
            overall_score FLOAT, overall_label TEXT,
            performance_score FLOAT, management_score FLOAT,
            transfers_score FLOAT, atmosphere_score FLOAT,
            key_topics TEXT, fan_voice_summary TEXT,
            positive_highlights TEXT, negative_highlights TEXT
        );
        INSERT INTO team_sentiment VALUES (1,'arsenal','Arsenal FC','premier-league','Premier League','2025/26','2026-04-15',72.5,'Positive',78.0,70.0,65.0,80.0,'[\"title race\",\"Saka\"]','Arsenal fans are optimistic.','[\"Saka form\"]','[\"Injury concerns\"]');
        INSERT INTO team_sentiment VALUES (2,'real-madrid','Real Madrid CF','la-liga','La Liga','2025/26','2026-04-15',88.5,'Very Positive',90.0,87.0,85.0,91.0,'[\"Vinicius\",\"Champions League\"]','Real fans are euphoric.','[\"Vinicius form\"]','[\"Defensive injuries\"]');
        INSERT INTO team_sentiment VALUES (3,'chelsea','Chelsea FC','premier-league','Premier League','2025/26','2026-04-15',31.0,'Negative',35.0,28.0,40.0,38.0,'[\"ownership\",\"inconsistency\"]','Chelsea fans are frustrated.','[\"Young signings\"]','[\"No identity\"]');",
    )
    .unwrap();
    conn
}

fn no_params() -> SentimentsParams {
    SentimentsParams {
        league: None,
        season: None,
        label: None,
        team: None,
        topic: None,
        sort: None,
        order: None,
    }
}

/// One listed record: team id, overall score and the three list-valued columns.
struct Row {
    team_id: String,
    key_topics: ListColumn,
    positive_highlights: ListColumn,
    negative_highlights: ListColumn,
    performance: f64,
}

fn run_listing(conn: &Connection, q: &SqlQuery) -> Result<Vec<Row>, String> {
    let run = || -> rusqlite::Result<Vec<Row>> {
        let mut stmt = conn.prepare(&q.sql)?;
        let rows = stmt.query_map(rusqlite::params_from_iter(q.params.iter()), |row| {
            let key_topics: String = row.get(13)?;
            let positive: String = row.get(15)?;
            let negative: String = row.get(16)?;
            Ok(Row {
                team_id: row.get(1)?,
                key_topics: decode_list_column(&key_topics),
                positive_highlights: decode_list_column(&positive),
                negative_highlights: decode_list_column(&negative),
                performance: row.get(9)?,
            })
        })?;
        rows.collect()
    };
    run().map_err(|e| e.to_string())
}

fn get_sentiments(p: SentimentsParams) -> Reply<Row> {
    let conn = setup_test_db();
    match plan_sentiments(&p) {
        Err(e) => Reply::Failure(e),
        Ok(q) => {
            let outcome = run_listing(&conn, &q);
            sentiments_reply(&p, outcome)
        }
    }
}

fn listing(r: Reply<Row>) -> (usize, Vec<Row>, Vec<(String, String)>) {
    match r {
        Reply::Success(l) => (l.count, l.data, l.filters_applied.unwrap()),
        Reply::Failure(e) => panic!("unexpected error {} {}", e.code, e.message),
    }
}

fn failure(r: Reply<Row>) -> (u16, u16, String) {
    match r {
        Reply::Success(_) => panic!("unexpected listing"),
        Reply::Failure(e) => (e.status, e.code, e.message),
    }
}

#[test]
fn test_sentiments_returns_all() {
    let (count, data, _) = listing(get_sentiments(no_params()));
    assert_eq!(count, 3);
    assert_eq!(data.len(), 3);
}

#[test]
fn test_sentiments_filter_by_league() {
    let mut p = no_params();
    p.league = Some("premier-league".to_string());
    let (count, _, _) = listing(get_sentiments(p));
    assert_eq!(count, 2);
}

#[test]
fn test_sentiments_filter_by_topic() {
    let mut p = no_params();
    p.topic = Some("Champions League".to_string());
    let (count, data, _) = listing(get_sentiments(p));
    assert_eq!(count, 1);
    assert_eq!(data[0].team_id, "real-madrid");
}

#[test]
fn test_sentiments_filter_by_label() {
    let mut p = no_params();
    p.label = Some("Negative".to_string());
    let (count, data, _) = listing(get_sentiments(p));
    assert_eq!(count, 1);
    assert_eq!(data[0].team_id, "chelsea");
}

#[test]
fn test_sentiments_sort_desc() {
    let mut p = no_params();
    p.sort = Some("overall_score".to_string());
    p.order = Some("desc".to_string());
    let (_, data, _) = listing(get_sentiments(p));
    assert_eq!(data[0].team_id, "real-madrid");
    assert_eq!(data[2].team_id, "chelsea");
}

#[test]
fn test_sentiments_not_found() {
    let mut p = no_params();
    p.league = Some("nonexistent".to_string());
    let (status, code, message) = failure(get_sentiments(p));
    assert_eq!(status, 404);
    assert_eq!(code, 404);
    assert_eq!(message, "No data found matching the applied filters.");
}

#[test]
fn test_sentiments_invalid_sort_returns_400() {
    let mut p = no_params();
    p.sort = Some("fake_field".to_string());
    let (status, code, _) = failure(get_sentiments(p));
    assert_eq!(status, 400);
    assert_eq!(code, 400);
}

#[test]
fn test_sentiments_invalid_order_returns_400() {
    let mut p = no_params();
    p.order = Some("sideways".to_string());
    let (status, _, _) = failure(get_sentiments(p));
    assert_eq!(status, 400);
}

#[test]
fn test_leagues_returns_aggregated() {
    let conn = setup_test_db();
    let run = || -> rusqlite::Result<Vec<(String, String, i64)>> {
        let mut stmt = conn.prepare(LEAGUES_SELECT)?;
        let rows = stmt.query_map([], |row| Ok((row.get(0)?, row.get(1)?, row.get(2)?)))?;
        rows.collect()
    };
    let reply = summary_reply(run().map_err(|e| e.to_string()));
    match reply {
        Reply::Success(l) => {
            assert_eq!(l.count, 2);
            assert!(l.filters_applied.is_none());
            let pl = l.data.iter().find(|r| r.0 == "premier-league").unwrap().clone();
            assert_eq!(pl.2, 2);
        }
        Reply::Failure(e) => panic!("unexpected error {}", e.message),
    }
}

#[test]
fn test_seasons_returns_aggregated() {
    let conn = setup_test_db();
    let run = || -> rusqlite::Result<Vec<(String, i64, String)>> {
        let mut stmt = conn.prepare(SEASONS_SELECT)?;
        let rows = stmt.query_map([], |row| Ok((row.get(0)?, row.get(1)?, row.get(2)?)))?;
        rows.collect()
    };
    let reply = summary_reply(run().map_err(|e| e.to_string()));
    match reply {
        Reply::Success(l) => {
            assert_eq!(l.count, 1);
            assert_eq!(l.data[0].0, "2025/26");
            assert_eq!(l.data[0].1, 3);
        }
        Reply::Failure(e) => panic!("unexpected error {}", e.message),
    }
}

fn is_array(c: &ListColumn) -> bool {
    match c {
        ListColumn::Decoded(v) => v.is_array(),
        ListColumn::Unreadable => false,
    }
}

#[test]
fn test_sentiments_response_shape() {
    let mut p = no_params();
    p.team = Some("Arsenal".to_string());
    let (_, data, _) = listing(get_sentiments(p));
    let record = &data[0];
    assert_eq!(record.performance, 78.0);
    assert!(is_array(&record.key_topics));
    assert!(is_array(&record.positive_highlights));
    assert!(is_array(&record.negative_highlights));
}

#[test]
fn filters_applied_lists_given_parameters_in_order() {
    let mut p = no_params();
    p.order = Some("desc".to_string());
    p.league = Some("premier-league".to_string());
    p.sort = Some("overall_score".to_string());
    p.team = Some("Ars".to_string());
    let f = filters_applied(&p);
    let expected = vec![
        ("league".to_string(), "premier-league".to_string()),
        ("team".to_string(), "Ars".to_string()),
        ("sort".to_string(), "overall_score".to_string()),
        ("order".to_string(), "desc".to_string()),
    ];
    assert_eq!(f, expected);
    let (_, _, applied) = listing(get_sentiments(p));
    assert_eq!(applied, expected);
}

#[test]
fn partial_match_on_team_name() {
    let mut p = no_params();
    p.team = Some("sea".to_string());
    let (count, data, _) = listing(get_sentiments(p));
    assert_eq!(count, 1);
    assert_eq!(data[0].team_id, "chelsea");
}

#[test]
fn combined_filters_and_ascending_sort() {
    let mut p = no_params();
    p.league = Some("premier-league".to_string());
    p.season = Some("2025/26".to_string());
    p.sort = Some("performance_score".to_string());
    let (count, data, _) = listing(get_sentiments(p));
    assert_eq!(count, 2);
    assert_eq!(data[0].team_id, "chelsea");
    assert_eq!(data[1].team_id, "arsenal");
}

#[test]
fn database_error_gives_500_with_its_message() {
    let conn = Connection::open_in_memory().unwrap();
    let p = no_params();
    let q = plan_sentiments(&p).ok().unwrap();
    let outcome = run_listing(&conn, &q);
    let expected = outcome.as_ref().err().unwrap().clone();
    let (status, code, message) = failure(sentiments_reply(&p, outcome));
    assert_eq!(status, 500);
    assert_eq!(code, 500);
    assert_eq!(message, expected);
    assert!(message.contains("team_sentiment"));
}
