use shortlink::report::{decimal_string, heading, report, row_line};
use shortlink::service::{
    get_code, lookup_reply, put_new, put_reply, Reply, Response, STORE_FAILURE,
};
use shortlink::store::{ensure_schema, list_all, Admission, Listing, StoreError};
use shortlink::url::ValidationError;

fn empty_db() -> redb::Database {
    redb::Database::builder()
        .create_with_backend(redb::backends::InMemoryBackend::new())
        .unwrap()
}

fn fresh_db() -> redb::Database {
    let db = empty_db();
    assert!(ensure_schema(&db).unwrap());
    db
}

fn created_code(reply: &Reply) -> String {
    match reply {
        Reply::Created { code } => code.clone(),
        other => panic!("{:?}", other),
    }
}

#[test]
fn submit_resubmit_resolve() {
    let db = fresh_db();

    let reply = put_new(&db, b"https://example.com/page");
    assert_eq!(reply.status(), 201);
    let body = reply.body().unwrap();
    assert!(body.ok);
    assert_eq!(body.msg.chars().count(), 6);
    let code = created_code(&reply);
    assert_eq!(body.msg, code);

    let again = put_new(&db, b"https://example.com/page");
    let body = again.body().unwrap();
    assert!(body.ok);
    assert_eq!(body.msg, code);

    let found = get_code(&db, &code);
    assert_eq!(found.status(), 308);
    assert_eq!(found.location(), Some(&"https://example.com/page".to_string()));
    assert!(found.body().is_none());

    let missing = get_code(&db, "doesnotexist");
    assert_eq!(missing.status(), 404);
    assert!(missing.body().is_none());
    assert!(missing.location().is_none());

    let bad = put_new(&db, b"not a url");
    assert_eq!(bad.status(), 400);
    let body = bad.body().unwrap();
    assert!(!body.ok);
    assert!(body.msg.starts_with("invalid url"), "{}", body.msg);
}

#[test]
fn resubmission_is_answered_with_200() {
    let db = fresh_db();
    let first = put_new(&db, b"https://example.com/page");
    assert!(matches!(first, Reply::Created { .. }), "{:?}", first);
    let second = put_new(&db, b"https://example.com/page");
    assert!(matches!(second, Reply::Reused { .. }), "{:?}", second);
    assert_eq!(second.status(), 200);
}

#[test]
fn equivalent_submissions_share_a_code() {
    let db = fresh_db();
    let code = created_code(&put_new(&db, b"https://example.com"));
    for raw in [&b" https://example.com/ \n"[..], b"HTTPS://example.com", b"https://example.com/#x"] {
        match put_new(&db, raw) {
            Reply::Reused { code: again } => assert_eq!(again, code),
            other => panic!("{:?}", other),
        }
    }
    assert_eq!(list_all(&db).unwrap().count, 1);
    match get_code(&db, &code) {
        Reply::Redirect { location } => assert_eq!(location, "https://example.com/"),
        other => panic!("{:?}", other),
    }
}

#[test]
fn rejected_submissions_never_reach_the_store() {
    let db = fresh_db();
    let rejected: [&[u8]; 6] = [
        b"ftp://example.com/x",
        b"example.com/x",
        b"example.com",
        &[0xff, 0xfe],
        b"not a url",
        b"",
    ];
    for raw in rejected {
        let reply = put_new(&db, raw);
        assert!(matches!(reply, Reply::Rejected { .. }), "{:?}", reply);
        assert_eq!(reply.status(), 400);
        assert!(!reply.body().unwrap().ok);
    }
    let listing = list_all(&db).unwrap();
    assert_eq!(listing.count, 0);
    assert!(listing.rows.is_empty());
}

#[test]
fn rejected_without_a_store() {
    // A database without tables fails every lookup, but a submission that is
    // turned down is answered before the store is asked.
    let db = empty_db();
    assert_eq!(put_new(&db, b"ftp://example.com/x").status(), 400);
    assert_eq!(put_new(&db, &[0xc0]).status(), 400);
    assert!(list_all(&db).is_err());
}

#[test]
fn rejection_messages() {
    let db = fresh_db();
    let msg = |raw: &[u8]| put_new(&db, raw).body().unwrap().msg;
    assert_eq!(msg(b"ftp://example.com/x"), "unsupported url scheme: ftp");
    assert_eq!(msg(b"example.com"), "url missing scheme");
    assert!(msg(b"example.com/x").starts_with("invalid url: "));
    assert!(msg(&[0xff]).starts_with("invalid utf-8 in url: "));
}

#[test]
fn store_failure_is_answered_with_500() {
    let db = empty_db();
    let reply = get_code(&db, "abcdef");
    assert!(matches!(reply, Reply::Failed { .. }), "{:?}", reply);
    assert_eq!(reply.status(), 500);
    assert_eq!(
        reply.body(),
        Some(Response { ok: false, msg: "problem with database".to_string() })
    );
    assert!(reply.location().is_none());
}

#[test]
fn store_failure_text_is_fixed() {
    assert_eq!(STORE_FAILURE, "problem with database");
    let reply = Reply::Failed { error: StoreError::NoFreeCode };
    assert_eq!(reply.body().unwrap().msg, STORE_FAILURE);
}

#[test]
fn lookup_reply_maps_each_outcome() {
    let reply = lookup_reply(Ok(Some("https://example.com/".to_string())));
    assert!(matches!(&reply, Reply::Redirect { location } if location == "https://example.com/"));
    assert_eq!(reply.status(), 308);
    let reply = lookup_reply(Ok(None));
    assert!(matches!(reply, Reply::NotFound));
    assert_eq!(reply.status(), 404);
    let reply = lookup_reply(Err(StoreError::NoFreeCode));
    assert!(matches!(reply, Reply::Failed { error: StoreError::NoFreeCode }));
    assert_eq!(reply.status(), 500);
}

#[test]
fn put_reply_maps_each_outcome() {
    let reply = put_reply(Ok(Admission { code: "AAAAAA".to_string(), created: true }));
    assert!(matches!(&reply, Reply::Created { code } if code == "AAAAAA"));
    assert_eq!(reply.status(), 201);
    assert_eq!(reply.body(), Some(Response { ok: true, msg: "AAAAAA".to_string() }));

    let reply = put_reply(Ok(Admission { code: "AAAAAA".to_string(), created: false }));
    assert!(matches!(&reply, Reply::Reused { code } if code == "AAAAAA"));
    assert_eq!(reply.status(), 200);
    assert_eq!(reply.body(), Some(Response { ok: true, msg: "AAAAAA".to_string() }));

    let reply = put_reply(Err(StoreError::NoFreeCode));
    assert!(matches!(reply, Reply::Failed { error: StoreError::NoFreeCode }));
    assert_eq!(reply.status(), 500);
    assert_eq!(
        reply.body(),
        Some(Response { ok: false, msg: "problem with database".to_string() })
    );
}

#[test]
fn rejected_reply_carries_the_reason() {
    let reply = Reply::Rejected { reason: ValidationError::MissingScheme };
    assert_eq!(reply.status(), 400);
    assert_eq!(reply.body(), Some(Response { ok: false, msg: "url missing scheme".to_string() }));
    assert!(reply.location().is_none());
}

#[test]
fn decimal_string_of_some_numbers() {
    assert_eq!(decimal_string(0), "0");
    assert_eq!(decimal_string(7), "7");
    assert_eq!(decimal_string(10), "10");
    assert_eq!(decimal_string(109), "109");
    assert_eq!(decimal_string(1234567890), "1234567890");
    assert_eq!(decimal_string(u64::MAX), "18446744073709551615");
}

#[test]
fn heading_counts_and_names_the_file() {
    assert_eq!(heading(0, "links.db"), "0 mappings found in links.db:");
    assert_eq!(heading(1, "links.db"), "1 mapping found in links.db:");
    assert_eq!(heading(2, "/var/lib/cc/links.db"), "2 mappings found in /var/lib/cc/links.db:");
    assert_eq!(heading(11, "x"), "11 mappings found in x:");
}

#[test]
fn row_line_of_a_mapping() {
    let row = Ok(("AAAAAA".to_string(), "https://example.com/".to_string()));
    assert_eq!(row_line(&row), "  AAAAAA -> https://example.com/");
}

#[test]
fn row_line_of_an_unreadable_row() {
    let row = Err(redb::StorageError::Corrupted("bad page".to_string()));
    let line = row_line(&row);
    assert!(line.starts_with("  error reading mapping: "), "{}", line);
    assert!(line.contains("bad page"), "{}", line);
}

#[test]
fn report_of_a_listing() {
    let listing = Listing {
        count: 2,
        rows: vec![
            Ok(("AAAAAA".to_string(), "https://a.example/".to_string())),
            Ok(("BBBBBB".to_string(), "https://b.example/".to_string())),
        ],
    };
    assert_eq!(
        report(&listing, "links.db"),
        vec![
            "2 mappings found in links.db:".to_string(),
            "  AAAAAA -> https://a.example/".to_string(),
            "  BBBBBB -> https://b.example/".to_string(),
        ]
    );
}

#[test]
fn report_of_an_empty_listing() {
    let listing = Listing { count: 0, rows: vec![] };
    assert_eq!(report(&listing, "links.db"), vec!["0 mappings found in links.db:".to_string()]);
}

#[test]
fn report_of_a_stored_link() {
    let db = fresh_db();
    let code = created_code(&put_new(&db, b"https://example.com/page"));
    let listing = list_all(&db).unwrap();
    assert_eq!(
        report(&listing, "mem"),
        vec![
            "1 mapping found in mem:".to_string(),
            format!("  {} -> https://example.com/page", code),
        ]
    );
}
