use movies_local_backend::error::{AppError, StorageError};
use movies_local_backend::models::{
    Movie, NewMovie, OmdbSearchItem, OmdbSearchResponse, SearchParams, SearchResultItem,
    Timestamp,
};
use movies_local_backend::search::{
    build_search_query, check_provider_status, decode_failed, normalize_search_response,
    provider_reported_success, request_failed, result_items,
};
use movies_local_backend::storage::{has_stored_records, sort_newest_first, Storage};
use movies_local_backend::text::{eq_ignore_ascii_case, is_blank, parse_u32};
use movies_local_backend::validation::{validate_new_movie, validate_search_params};

fn request(title: &str, imdb_id: &str, added_by: &str) -> NewMovie {
    NewMovie {
        title: title.to_string(),
        imdb_id: imdb_id.to_string(),
        added_by: added_by.to_string(),
        poster_url: None,
        year: None,
        media_type: None,
        notes: None,
        plot: None,
    }
}

fn empty_store() -> Storage {
    Storage::initialise("data/movies.json".to_string(), Ok(Vec::new())).unwrap()
}

fn omdb_item(title: &str, imdb_id: &str) -> OmdbSearchItem {
    OmdbSearchItem {
        title: title.to_string(),
        year: Some("2021".to_string()),
        imdb_id: imdb_id.to_string(),
        media_type: Some("movie".to_string()),
        poster_url: None,
    }
}

fn movie_at(title: &str, secs: i64, nanos: u32) -> Movie {
    Movie::from_request(request(title, "tt1", "bob"), secs as u128, Timestamp { secs, nanos })
}

fn bad_request_message(r: Result<(), AppError>) -> String {
    match r {
        Err(AppError::BadRequest(m)) => m,
        other => panic!("expected a bad request, got {:?}", other),
    }
}

#[test]
fn add_then_list_returns_the_single_record() {
    let mut store = empty_store();
    let created = store.add(request("Dune", "tt1160419", "alice")).unwrap();
    let listed = store.list();
    assert_eq!(listed.len(), 1);
    let m = &listed[0];
    assert_eq!(m, &created);
    assert_eq!(m.title, "Dune");
    assert_eq!(m.imdb_id, "tt1160419");
    assert_eq!(m.added_by, "alice");
    assert_ne!(m.id, 0);
    assert_eq!(m.poster_url, None);
    assert_eq!(m.year, None);
    assert_eq!(m.media_type, None);
    assert_eq!(m.notes, None);
    assert_eq!(m.plot, None);
}

#[test]
fn add_copies_optional_fields() {
    let mut store = empty_store();
    let mut req = request("Alien", "tt0078748", "carol");
    req.poster_url = Some("http://p".to_string());
    req.year = Some("1979".to_string());
    req.media_type = Some("movie".to_string());
    req.notes = Some("classic".to_string());
    req.plot = Some("in space".to_string());
    let m = store.add(req.clone()).unwrap();
    assert_eq!(m.poster_url, req.poster_url);
    assert_eq!(m.year, req.year);
    assert_eq!(m.media_type, req.media_type);
    assert_eq!(m.notes, req.notes);
    assert_eq!(m.plot, req.plot);
}

#[test]
fn added_ids_are_version_four_uuids_and_distinct() {
    let mut store = empty_store();
    let a = store.add(request("A", "tt1", "x")).unwrap();
    let b = store.add(request("B", "tt2", "x")).unwrap();
    assert_ne!(a.id, b.id);
    assert_eq!((a.id >> 76) & 0xf, 4);
    assert_eq!((b.id >> 62) & 0x3, 2);
}

#[test]
fn added_record_is_stamped_with_the_current_time() {
    let mut store = empty_store();
    let m = store.add(request("A", "tt1", "x")).unwrap();
    assert!(m.created_at.secs > 1_600_000_000);
    assert!(m.created_at.nanos < 1_000_000_000);
}

#[test]
fn list_after_n_adds_has_n_records_in_order() {
    let mut store = empty_store();
    let titles = ["One", "Two", "Three", "Four"];
    for t in titles.iter() {
        store.add(request(t, "tt0", "dave")).unwrap();
    }
    let listed = store.list();
    assert_eq!(listed.len(), 4);
    for (m, t) in listed.iter().zip(titles.iter()) {
        assert_eq!(&m.title, t);
    }
    let sorted = sort_newest_first(listed);
    assert_eq!(sorted.len(), 4);
    for w in sorted.windows(2) {
        assert!(w[0].created_at.is_not_before(&w[1].created_at));
    }
}

#[test]
fn sort_newest_first_orders_by_creation_time() {
    let movies = vec![
        movie_at("old", 10, 5),
        movie_at("new", 30, 0),
        movie_at("mid", 10, 7),
        movie_at("new2", 30, 0),
    ];
    let sorted = sort_newest_first(movies);
    let titles: Vec<&str> = sorted.iter().map(|m| m.title.as_str()).collect();
    assert_eq!(titles.len(), 4);
    assert_eq!(titles[0], "new");
    assert_eq!(titles[1], "new2");
    assert_eq!(titles[2], "mid");
    assert_eq!(titles[3], "old");
    assert!(sort_newest_first(Vec::new()).is_empty());
}

#[test]
fn storage_keeps_path_and_decoded_records() {
    let records = vec![movie_at("a", 1, 0), movie_at("b", 2, 0)];
    let store = Storage::initialise("x/y.json".to_string(), Ok(records.clone())).unwrap();
    assert_eq!(store.path(), "x/y.json");
    assert_eq!(store.list(), records);
    assert!(store.holds_id(1));
    assert!(!store.holds_id(3));
}

#[test]
fn missing_or_empty_file_starts_empty() {
    assert!(!has_stored_records(&None));
    assert!(!has_stored_records(&Some(Vec::new())));
    assert!(has_stored_records(&Some(b"[]".to_vec())));
    assert!(empty_store().list().is_empty());
}

#[test]
fn malformed_file_fails_with_serialization_error() {
    let r = Storage::initialise(
        "m.json".to_string(),
        Err(StorageError::Serde("expected value at line 1 column 1".to_string())),
    );
    match r {
        Err(e) => {
            assert_eq!(e, StorageError::Serde("expected value at line 1 column 1".to_string()));
            assert_eq!(
                e.message(),
                "data serialization error: expected value at line 1 column 1"
            );
        }
        Ok(_) => panic!("malformed contents must fail"),
    }
}

#[test]
fn storage_error_messages() {
    assert_eq!(StorageError::Io("denied".to_string()).message(), "io error: denied");
    assert_eq!(
        StorageError::DuplicateId.message(),
        "no unused record identifier could be drawn"
    );
}

#[test]
fn app_error_status_codes_and_messages() {
    let e = AppError::BadRequest("bad".to_string());
    assert_eq!(e.status_code(), 400);
    assert_eq!(e.message(), "bad");
    assert_eq!(AppError::Configuration("c".to_string()).status_code(), 500);
    let s = AppError::Storage(StorageError::Io("disk".to_string()));
    assert_eq!(s.status_code(), 500);
    assert_eq!(s.message(), "io error: disk");
    assert_eq!(AppError::Downstream("d".to_string()).status_code(), 502);
}

#[test]
fn validation_names_first_blank_field() {
    assert_eq!(
        bad_request_message(validate_new_movie(&request("", "tt1", "a"))),
        "title cannot be empty"
    );
    assert_eq!(
        bad_request_message(validate_new_movie(&request("  \t", "", ""))),
        "title cannot be empty"
    );
    assert_eq!(
        bad_request_message(validate_new_movie(&request("Dune", " \n ", "a"))),
        "imdb_id cannot be empty"
    );
    assert_eq!(
        bad_request_message(validate_new_movie(&request("Dune", "tt1", "\u{3000}"))),
        "added_by cannot be empty"
    );
}

#[test]
fn validation_accepts_required_fields_without_optionals() {
    assert!(validate_new_movie(&request("Dune", "tt1160419", "alice")).is_ok());
    assert!(validate_new_movie(&request(" x ", "y", "z")).is_ok());
}

#[test]
fn blank_query_is_rejected() {
    let p = SearchParams { query: "   ".to_string(), media_type: None };
    assert_eq!(bad_request_message(validate_search_params(&p)), "query parameter cannot be empty");
    let p = SearchParams { query: "".to_string(), media_type: None };
    assert!(validate_search_params(&p).is_err());
    let p = SearchParams { query: "dune".to_string(), media_type: None };
    assert!(validate_search_params(&p).is_ok());
}

#[test]
fn missing_key_is_a_configuration_error_for_any_query() {
    for q in ["dune", "", "zzzznotamovie"] {
        let p = SearchParams { query: q.to_string(), media_type: Some("movie".to_string()) };
        match build_search_query(&p, &None) {
            Err(AppError::Configuration(m)) => assert_eq!(m, "OMDB_API_KEY is not configured"),
            other => panic!("expected a configuration error, got {:?}", other),
        }
    }
}

#[test]
fn provider_query_holds_key_query_and_filter() {
    let key = Some("k123".to_string());
    let p = SearchParams { query: "dune".to_string(), media_type: None };
    let q = build_search_query(&p, &key).unwrap();
    assert_eq!(
        q,
        vec![
            ("apikey".to_string(), "k123".to_string()),
            ("s".to_string(), "dune".to_string()),
        ]
    );
    let p = SearchParams { query: "dune".to_string(), media_type: Some("series".to_string()) };
    let q = build_search_query(&p, &key).unwrap();
    assert_eq!(q.len(), 3);
    assert_eq!(q[2], ("type".to_string(), "series".to_string()));
}

#[test]
fn provider_status_classification() {
    assert!(check_provider_status(200, "200 OK").is_ok());
    assert!(check_provider_status(299, "299").is_ok());
    match check_provider_status(404, "404 Not Found") {
        Err(AppError::Downstream(m)) => {
            assert_eq!(m, "omdb returned unexpected status: 404 Not Found")
        }
        other => panic!("expected a downstream error, got {:?}", other),
    }
    assert!(check_provider_status(500, "500").is_err());
    assert!(check_provider_status(199, "199").is_err());
}

#[test]
fn provider_failure_becomes_empty_result() {
    let payload = OmdbSearchResponse {
        search: None,
        total_results: None,
        response: "False".to_string(),
        error: Some("Movie not found!".to_string()),
    };
    let r = normalize_search_response(payload);
    assert!(r.results.is_empty());
    assert_eq!(r.total_results, Some(0));
}

#[test]
fn provider_failure_flag_other_than_true_ignores_hits() {
    let payload = OmdbSearchResponse {
        search: Some(vec![omdb_item("Dune", "tt1")]),
        total_results: Some("1".to_string()),
        response: "yes".to_string(),
        error: None,
    };
    let r = normalize_search_response(payload);
    assert!(r.results.is_empty());
    assert_eq!(r.total_results, Some(0));
}

#[test]
fn provider_success_maps_hits_and_total() {
    let payload = OmdbSearchResponse {
        search: Some(vec![omdb_item("Dune", "tt1160419"), omdb_item("Dune Part Two", "tt15239678")]),
        total_results: Some("42".to_string()),
        response: "TRUE".to_string(),
        error: None,
    };
    let r = normalize_search_response(payload);
    assert_eq!(r.total_results, Some(42));
    assert_eq!(
        r.results,
        vec![
            SearchResultItem {
                title: "Dune".to_string(),
                year: Some("2021".to_string()),
                imdb_id: "tt1160419".to_string(),
                media_type: Some("movie".to_string()),
                poster_url: None,
            },
            SearchResultItem {
                title: "Dune Part Two".to_string(),
                year: Some("2021".to_string()),
                imdb_id: "tt15239678".to_string(),
                media_type: Some("movie".to_string()),
                poster_url: None,
            },
        ]
    );
}

#[test]
fn provider_success_without_list_or_count() {
    let payload = OmdbSearchResponse {
        search: None,
        total_results: Some("many".to_string()),
        response: "True".to_string(),
        error: None,
    };
    let r = normalize_search_response(payload);
    assert!(r.results.is_empty());
    assert_eq!(r.total_results, None);
}

#[test]
fn from_omdb_renames_fields() {
    let item = omdb_item("Heat", "tt0113277");
    let r = SearchResultItem::from_omdb(item);
    assert_eq!(r.title, "Heat");
    assert_eq!(r.imdb_id, "tt0113277");
    assert_eq!(r.year, Some("2021".to_string()));
    assert_eq!(result_items(&vec![omdb_item("a", "b")]).len(), 1);
}

#[test]
fn success_flag_is_case_insensitive() {
    assert!(provider_reported_success("true"));
    assert!(provider_reported_success("tRuE"));
    assert!(!provider_reported_success("False"));
    assert!(!provider_reported_success("true "));
    assert!(eq_ignore_ascii_case("ÄbC", "Äbc"));
    assert!(!eq_ignore_ascii_case("Ä", "ä"));
}

#[test]
fn decimal_counts() {
    assert_eq!(parse_u32("0"), Some(0));
    assert_eq!(parse_u32("+17"), Some(17));
    assert_eq!(parse_u32("007"), Some(7));
    assert_eq!(parse_u32("4294967295"), Some(4294967295));
    assert_eq!(parse_u32("4294967296"), None);
    assert_eq!(parse_u32("99999999999999999999"), None);
    assert_eq!(parse_u32(""), None);
    assert_eq!(parse_u32("+"), None);
    assert_eq!(parse_u32("-1"), None);
    assert_eq!(parse_u32("1 2"), None);
    assert_eq!(parse_u32("N/A"), None);
}

#[test]
fn blank_texts() {
    assert!(is_blank(""));
    assert!(is_blank(" \t\r\n\u{a0}\u{2003}"));
    assert!(!is_blank(" a "));
    assert!(!is_blank("\u{200b}"));
}

#[test]
fn add_with_id_refuses_an_identifier_in_use() {
    let mut store = empty_store();
    let t = Timestamp { secs: 1_700_000_000, nanos: 5 };
    let first = store.add_with_id(request("A", "tt1", "x"), 77, t).unwrap();
    assert_eq!(first.id, 77);
    assert_eq!(first.created_at, t);
    let again = store.add_with_id(request("B", "tt2", "y"), 77, t);
    assert_eq!(again, Err(StorageError::DuplicateId));
    assert_eq!(store.list().len(), 1);
    let other = store.add_with_id(request("B", "tt2", "y"), 78, t).unwrap();
    assert_eq!(other.title, "B");
    assert_eq!(store.list().len(), 2);
}

#[test]
fn timestamps_compare_by_seconds_then_nanoseconds() {
    let a = Timestamp { secs: 5, nanos: 10 };
    let b = Timestamp { secs: 5, nanos: 11 };
    let c = Timestamp { secs: 6, nanos: 0 };
    assert!(b.is_not_before(&a));
    assert!(!a.is_not_before(&b));
    assert!(c.is_not_before(&b));
    assert!(a.is_not_before(&a));
}

#[test]
fn equal_creation_times_keep_their_order() {
    let movies = vec![
        movie_at("a", 5, 0),
        movie_at("b", 9, 0),
        movie_at("c", 5, 0),
        movie_at("d", 9, 0),
        movie_at("e", 5, 0),
    ];
    let sorted = sort_newest_first(movies);
    let titles: Vec<&str> = sorted.iter().map(|m| m.title.as_str()).collect();
    assert_eq!(titles, vec!["b", "d", "a", "c", "e"]);
}

#[test]
fn added_id_is_not_nil() {
    let mut store = empty_store();
    let m = store.add(request("Dune", "tt1160419", "alice")).unwrap();
    assert_ne!(m.id, 0);
    assert_eq!(store.list()[0].id, m.id);
}

#[test]
fn downstream_failure_messages_quote_the_cause() {
    match request_failed("connection refused") {
        AppError::Downstream(m) => assert_eq!(m, "omdb request failed: connection refused"),
        other => panic!("expected a downstream error, got {:?}", other),
    }
    match decode_failed("missing field `Response`") {
        AppError::Downstream(m) => {
            assert_eq!(m, "failed to decode omdb response: missing field `Response`")
        }
        other => panic!("expected a downstream error, got {:?}", other),
    }
}
