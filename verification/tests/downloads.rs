//! Search results, the pages of a search, and the check of a downloaded file.

use chrono::Datelike;
use firds::coded::Coded;
use firds::download::{
    map_from_value, str_from_value, DownloadError, FirdsDoc, FirdsDocType, FirdsSource,
};
use firds::json::Json;
use firds::scalar::{Date, Timestamp};
use firds::search::{esma_query, fca_query, publication_filter, Search};
use firds::validity::day_before;

fn text(s: &str) -> Json {
    Json::Text(s.to_string())
}

fn object(members: Vec<(&str, Json)>) -> Json {
    Json::Object(members.into_iter().map(|(k, v)| (k.to_string(), v)).collect())
}

fn esma_entry(name: &str) -> Json {
    object(vec![
        ("checksum", text("0123456789abcdef0123456789abcdef")),
        ("download_link", text("https://example.org/firds/FULINS_D_20250201_01of03.zip")),
        ("publication_date", text("2025-02-01T00:00:00Z")),
        ("id", text("57550")),
        ("_version_", Json::Number(Some(1822845165693009920))),
        ("file_name", text(name)),
        ("file_type", text("FULINS")),
        ("timestamp", text("2017-11-16T08:30:00Z")),
    ])
}

fn esma_doc(name: &str) -> FirdsDoc {
    FirdsDoc {
        source: FirdsSource::Esma,
        download_link: "https://example.org/firds/FULINS_D_20250201_01of03.zip".to_string(),
        file_id: "57550".to_string(),
        file_name: name.to_string(),
        file_type: FirdsDocType::Fulins,
        timestamp: Timestamp { seconds: 1510821000, nanos: 0 },
        checksum: Some("0123456789abcdef0123456789abcdef".to_string()),
    }
}

fn fca_entry() -> Json {
    object(vec![
        ("_index", text("firds")),
        ("_id", text("DLTINS_20250203_01of01.zip")),
        (
            "_source",
            object(vec![
                ("download_link", text("https://example.org/fca/DLTINS_20250203_01of01.zip")),
                ("file_name", text("DLTINS_20250203_01of01.zip")),
                ("file_type", text("DLTINS")),
                ("last_refreshed", text("2025-02-02T00:00:00+01:00")),
            ]),
        ),
    ])
}

fn fca_doc() -> FirdsDoc {
    FirdsDoc {
        source: FirdsSource::Fca,
        download_link: "https://example.org/fca/DLTINS_20250203_01of01.zip".to_string(),
        file_id: "DLTINS_20250203_01of01.zip".to_string(),
        file_name: "DLTINS_20250203_01of01.zip".to_string(),
        file_type: FirdsDocType::Dltins,
        timestamp: Timestamp { seconds: 1738450800, nanos: 0 },
        checksum: None,
    }
}

fn without(entry: &Json, key: &str) -> Json {
    match entry {
        Json::Object(members) => Json::Object(
            members
                .iter()
                .filter(|(k, _)| k != key)
                .map(|(k, v)| (k.clone(), copy(v)))
                .collect(),
        ),
        other => copy(other),
    }
}

fn with(entry: &Json, key: &str, value: Json) -> Json {
    match entry {
        Json::Object(members) => {
            let mut all: Vec<(String, Json)> =
                members.iter().map(|(k, v)| (k.clone(), copy(v))).collect();
            all.push((key.to_string(), value));
            Json::Object(all)
        }
        other => copy(other),
    }
}

fn copy(value: &Json) -> Json {
    match value {
        Json::Null => Json::Null,
        Json::Bool(b) => Json::Bool(*b),
        Json::Number(n) => Json::Number(*n),
        Json::Text(s) => Json::Text(s.clone()),
        Json::Array(items) => Json::Array(items.iter().map(copy).collect()),
        Json::Object(members) => {
            Json::Object(members.iter().map(|(k, v)| (k.clone(), copy(v))).collect())
        }
    }
}

#[test]
fn kinds_of_file_and_registers() {
    assert_eq!(FirdsDocType::from_str("FULINS"), Ok(FirdsDocType::Fulins));
    assert_eq!(FirdsDocType::from_str("DLTINS"), Ok(FirdsDocType::Dltins));
    assert_eq!(FirdsDocType::from_str("FULCAN"), Ok(FirdsDocType::Fulcan));
    assert_eq!(
        FirdsDocType::from_str("fulins"),
        Err(DownloadError::EnumParseError("fulins".to_string()))
    );
    assert_eq!(FirdsDocType::from_str(""), Err(DownloadError::EnumParseError(String::new())));
    assert_eq!(FirdsDocType::Dltins.code(), "DLTINS");
    assert_eq!(FirdsSource::Esma.code(), "ESMA");
    assert_eq!(FirdsSource::Fca.code(), "FCA");
    assert_eq!(FirdsSource::from_code("FCA"), Some(FirdsSource::Fca));
    assert_eq!(FirdsSource::from_code("fca"), None);
}

#[test]
fn members_of_a_json_value() {
    let value = object(vec![
        ("a", text("first")),
        ("n", Json::Number(Some(-5))),
        ("big", Json::Number(None)),
        ("list", Json::Array(vec![Json::Null, Json::Bool(true)])),
        ("a", text("second")),
        ("o", object(vec![])),
    ]);
    assert_eq!(value.member("a"), Some(&text("second")));
    assert_eq!(value.member("A"), None);
    assert_eq!(value.member("n").and_then(|n| n.as_i64()), Some(-5));
    assert_eq!(value.member("big").and_then(|n| n.as_i64()), None);
    assert_eq!(value.member("a").and_then(|n| n.as_i64()), None);
    assert_eq!(value.member("a").and_then(|n| n.as_str()), Some("second"));
    assert_eq!(value.member("n").and_then(|n| n.as_str()), None);
    assert_eq!(value.member("list").and_then(|n| n.as_array()).map(|l| l.len()), Some(2));
    assert_eq!(value.member("a").and_then(|n| n.as_array()), None);
    assert!(value.is_object());
    assert!(!text("x").is_object());
    assert_eq!(text("x").member("a"), None);
    assert_eq!(Json::Array(vec![text("a")]).member("a"), None);
}

#[test]
fn text_and_object_members() {
    let value = object(vec![("a", text("x")), ("n", Json::Number(Some(1))), ("o", object(vec![]))]);
    assert_eq!(str_from_value(&value, "a"), Ok("x"));
    assert_eq!(
        str_from_value(&value, "b"),
        Err(DownloadError::JsonMapKeyNotFound("b".to_string()))
    );
    assert_eq!(str_from_value(&value, "n"), Err(DownloadError::BadJson));
    assert_eq!(str_from_value(&text("a"), "a"), Err(DownloadError::BadJson));
    assert_eq!(map_from_value(&value, "o"), Ok(&object(vec![])));
    assert_eq!(map_from_value(&value, "a"), Err(DownloadError::BadJson));
    assert_eq!(
        map_from_value(&value, "p"),
        Err(DownloadError::JsonMapKeyNotFound("p".to_string()))
    );
    assert_eq!(map_from_value(&Json::Null, "o"), Err(DownloadError::BadJson));
}

#[test]
fn document_of_an_esma_result() {
    let entry = esma_entry("FULINS_D_20250201_01of03.zip");
    assert_eq!(FirdsDoc::from_esma_json(&entry), Ok(esma_doc("FULINS_D_20250201_01of03.zip")));
    assert_eq!(FirdsDoc::from_esma_json(&Json::Null), Err(DownloadError::BadJson));
    assert_eq!(FirdsDoc::from_esma_json(&Json::Array(vec![])), Err(DownloadError::BadJson));
    for key in ["download_link", "id", "file_name", "file_type", "timestamp", "checksum"] {
        assert_eq!(
            FirdsDoc::from_esma_json(&without(&entry, key)),
            Err(DownloadError::JsonMapKeyNotFound(key.to_string()))
        );
        assert_eq!(
            FirdsDoc::from_esma_json(&with(&entry, key, Json::Number(Some(1)))),
            Err(DownloadError::BadJson)
        );
    }
    assert_eq!(
        FirdsDoc::from_esma_json(&with(&entry, "file_type", text("FULLINS"))),
        Err(DownloadError::EnumParseError("FULLINS".to_string()))
    );
    assert_eq!(
        FirdsDoc::from_esma_json(&with(&entry, "timestamp", text("2017-11-16"))),
        Err(DownloadError::BadDateTime)
    );
    assert_eq!(
        FirdsDoc::from_esma_json(&without(&with(&entry, "file_type", text("x")), "download_link")),
        Err(DownloadError::JsonMapKeyNotFound("download_link".to_string()))
    );
}

#[test]
fn document_of_an_fca_result() {
    assert_eq!(FirdsDoc::from_fca_json(&fca_entry()), Ok(fca_doc()));
    assert_eq!(FirdsDoc::from_fca_json(&text("x")), Err(DownloadError::BadJson));
    assert_eq!(
        FirdsDoc::from_fca_json(&without(&fca_entry(), "_source")),
        Err(DownloadError::JsonMapKeyNotFound("_source".to_string()))
    );
    assert_eq!(
        FirdsDoc::from_fca_json(&with(&fca_entry(), "_source", text("x"))),
        Err(DownloadError::BadJson)
    );
    assert_eq!(
        FirdsDoc::from_fca_json(&without(&fca_entry(), "_id")),
        Err(DownloadError::JsonMapKeyNotFound("_id".to_string()))
    );
    assert_eq!(
        FirdsDoc::from_fca_json(&with(&fca_entry(), "_source", object(vec![]))),
        Err(DownloadError::JsonMapKeyNotFound("download_link".to_string()))
    );
    assert_eq!(FirdsDoc::from_esma_json(&fca_entry()), Err(DownloadError::JsonMapKeyNotFound("download_link".to_string())));
}

#[test]
fn check_of_a_downloaded_file() {
    let doc = esma_doc("a.zip");
    assert_eq!(doc.verify_file("0123456789abcdef0123456789abcdef"), Ok(()));
    assert_eq!(
        doc.verify_file("d41d8cd98f00b204e9800998ecf8427e"),
        Err(DownloadError::Md5CheckFailed("d41d8cd98f00b204e9800998ecf8427e".to_string()))
    );
    assert_eq!(
        doc.verify_file("0123456789ABCDEF0123456789ABCDEF"),
        Err(DownloadError::Md5CheckFailed("0123456789ABCDEF0123456789ABCDEF".to_string()))
    );
    assert_eq!(fca_doc().verify_file("d41d8cd98f00b204e9800998ecf8427e"), Err(DownloadError::NoMd5Sum));
}

fn esma_page(found: Json, names: &[&str]) -> Json {
    object(vec![
        ("responseHeader", object(vec![("status", Json::Number(Some(0)))])),
        (
            "response",
            object(vec![
                ("numFound", found),
                ("start", Json::Number(Some(0))),
                ("docs", Json::Array(names.iter().map(|n| esma_entry(n)).collect())),
            ]),
        ),
    ])
}

#[test]
fn pages_of_an_esma_search() {
    let search = Search::new();
    assert_eq!(search, Search { start: 0, rows: 100, num_found: -1, docs: vec![] });
    assert!(search.wants_page());
    let search = search.accept_esma_page(&esma_page(Json::Number(Some(150)), &["a", "b"])).unwrap();
    assert_eq!(
        search,
        Search { start: 100, rows: 100, num_found: 150, docs: vec![esma_doc("a"), esma_doc("b")] }
    );
    assert!(search.wants_page());
    let search = search.accept_esma_page(&esma_page(Json::Number(Some(7)), &["c"])).unwrap();
    assert_eq!(
        search,
        Search {
            start: 200,
            rows: 100,
            num_found: 150,
            docs: vec![esma_doc("a"), esma_doc("b"), esma_doc("c")],
        }
    );
    assert!(!search.wants_page());
}

#[test]
fn search_without_results() {
    let search = Search::new().accept_esma_page(&esma_page(Json::Number(Some(0)), &[])).unwrap();
    assert_eq!(search, Search { start: 100, rows: 100, num_found: 0, docs: vec![] });
    assert!(!search.wants_page());
    let exact = Search { start: 100, rows: 100, num_found: 100, docs: vec![] };
    assert!(!exact.wants_page());
    let more = Search { start: 100, rows: 100, num_found: 101, docs: vec![] };
    assert!(more.wants_page());
}

#[test]
fn pages_that_cannot_be_read() {
    assert_eq!(Search::new().accept_esma_page(&Json::Null), Err(DownloadError::BadJson));
    assert_eq!(Search::new().accept_esma_page(&object(vec![])), Err(DownloadError::BadJson));
    assert_eq!(
        Search::new().accept_esma_page(&object(vec![("response", Json::Array(vec![]))])),
        Err(DownloadError::BadJson)
    );
    assert_eq!(
        Search::new().accept_esma_page(&esma_page(text("150"), &["a"])),
        Err(DownloadError::BadJson)
    );
    assert_eq!(
        Search::new().accept_esma_page(&esma_page(Json::Number(None), &["a"])),
        Err(DownloadError::BadJson)
    );
    let known = Search { start: 100, rows: 100, num_found: 150, docs: vec![] };
    assert_eq!(
        known.accept_esma_page(&esma_page(text("150"), &["a"])).map(|s| s.num_found),
        Ok(150)
    );
    assert_eq!(
        Search::new().accept_esma_page(&object(vec![(
            "response",
            object(vec![("numFound", Json::Number(Some(1)))])
        )])),
        Err(DownloadError::BadJson)
    );
    let broken = object(vec![(
        "response",
        object(vec![
            ("numFound", Json::Number(Some(2))),
            ("docs", Json::Array(vec![esma_entry("a"), text("b"), Json::Null])),
        ]),
    )]);
    assert_eq!(Search::new().accept_esma_page(&broken), Err(DownloadError::BadJson));
    assert_eq!(Search::new().accept_fca_page(&esma_page(Json::Number(Some(1)), &["a"])), Err(DownloadError::BadJson));
}

#[test]
fn pages_of_an_fca_search() {
    let page = object(vec![(
        "hits",
        object(vec![
            ("total", Json::Number(Some(1))),
            ("hits", Json::Array(vec![fca_entry()])),
        ]),
    )]);
    let search = Search::new().accept_fca_page(&page).unwrap();
    assert_eq!(search, Search { start: 100, rows: 100, num_found: 1, docs: vec![fca_doc()] });
    assert!(!search.wants_page());
    assert_eq!(
        Search::new().accept_page(&page, FirdsSource::Fca).map(|s| s.docs.len()),
        Ok(1)
    );
    assert_eq!(
        Search::new().accept_esma_page(&page),
        Err(DownloadError::BadJson)
    );
}

#[test]
fn start_of_the_next_page_stays_in_range() {
    let far = Search { start: i64::MAX - 50, rows: 100, num_found: i64::MAX, docs: vec![] };
    let next = far.accept_esma_page(&esma_page(Json::Null, &[])).unwrap();
    assert_eq!(next.start, i64::MAX);
    assert!(!next.wants_page());
    let back = Search { start: i64::MIN + 50, rows: -100, num_found: 5, docs: vec![] };
    assert_eq!(back.accept_esma_page(&esma_page(Json::Null, &[])).map(|s| s.start), Ok(i64::MIN));
}

#[test]
fn what_a_search_asks_for() {
    assert_eq!(
        publication_filter("2024-10-15T00:00:00Z", "2024-12-31T23:59:59Z"),
        "publication_date:[2024-10-15T00:00:00Z TO 2024-12-31T23:59:59Z]"
    );
    assert_eq!(publication_filter("", ""), "publication_date:[ TO ]");
    assert_eq!(esma_query(None), "*");
    assert_eq!(esma_query(Some(FirdsDocType::Fulcan)), "FULCAN");
    let filter = publication_filter("2024-10-15", "2024-12-31");
    assert_eq!(fca_query(&filter, None), "(publication_date:[2024-10-15 TO 2024-12-31])");
    assert_eq!(
        fca_query(&filter, Some(FirdsDocType::Dltins)),
        "((file_type:DLTINS) AND (publication_date:[2024-10-15 TO 2024-12-31]))"
    );
}

#[test]
fn day_before_a_day() {
    let date = |year, month, day| Date { year, month, day };
    assert_eq!(day_before(date(2025, 2, 5)), Some(date(2025, 2, 4)));
    assert_eq!(day_before(date(2025, 2, 1)), Some(date(2025, 1, 31)));
    assert_eq!(day_before(date(2025, 1, 1)), Some(date(2024, 12, 31)));
    assert_eq!(day_before(date(2025, 3, 1)), Some(date(2025, 2, 28)));
    assert_eq!(day_before(date(2024, 3, 1)), Some(date(2024, 2, 29)));
    assert_eq!(day_before(date(2000, 3, 1)), Some(date(2000, 2, 29)));
    assert_eq!(day_before(date(1900, 3, 1)), Some(date(1900, 2, 28)));
    assert_eq!(day_before(date(2025, 5, 1)), Some(date(2025, 4, 30)));
    assert_eq!(day_before(date(0, 1, 1)), Some(date(-1, 12, 31)));
    assert_eq!(day_before(date(-4, 3, 1)), Some(date(-4, 2, 29)));
    assert_eq!(day_before(date(2025, 2, 29)), None);
    assert_eq!(day_before(date(2025, 0, 1)), None);
    assert_eq!(day_before(date(2025, 13, 1)), None);
    assert_eq!(day_before(date(2025, 4, 31)), None);
    assert_eq!(day_before(date(2025, 4, 0)), None);
    assert_eq!(day_before(date(i32::MIN, 1, 1)), None);
    assert_eq!(day_before(date(i32::MIN, 1, 2)), Some(date(i32::MIN, 1, 1)));
}

#[test]
fn day_before_agrees_with_the_calendar_library() {
    let mut day = chrono::NaiveDate::from_ymd_opt(2023, 12, 30).unwrap();
    let last = chrono::NaiveDate::from_ymd_opt(2025, 1, 2).unwrap();
    while day < last {
        let next = day.succ_opt().unwrap();
        assert_eq!(
            day_before(Date { year: next.year(), month: next.month(), day: next.day() }),
            Some(Date { year: day.year(), month: day.month(), day: day.day() })
        );
        day = next;
    }
}
