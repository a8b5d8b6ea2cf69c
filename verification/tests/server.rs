use slados::server::{
    after_write, bind_address, client_dispatch, dispatch_with_quote, fresh_database_contents,
    route, Database, Dispatch, IdToSerial, Method, Reply, Request, Route, SerialToId, StoreError,
};

fn lookup(serial: Option<u32>) -> Request {
    Request {
        method: Method::Get,
        path: "/s2id".to_string(),
        lookup: serial.map(|serial| SerialToId { serial }),
        record: None,
    }
}

fn record(pair: Option<(u32, u32)>) -> Request {
    Request {
        method: Method::Post,
        path: "/s2id".to_string(),
        lookup: pair.map(|(_, serial)| SerialToId { serial }),
        record: pair.map(|(id, serial)| IdToSerial { id, serial }),
    }
}

fn other(method: Method, path: &str) -> Request {
    Request { method, path: path.to_string(), lookup: None, record: None }
}

fn answered(d: Dispatch) -> (u16, String) {
    match d {
        Dispatch::Answer(r) => (r.status, r.body),
        Dispatch::Persist { .. } => panic!("expected an answer that writes nothing"),
    }
}

fn persisted(d: Dispatch) -> (u16, String, String) {
    match d {
        Dispatch::Persist { reply, contents } => (reply.status, reply.body, contents),
        Dispatch::Answer(r) => panic!("expected a write back, got {} {}", r.status, r.body),
    }
}

#[test]
fn routes() {
    assert_eq!(route(Method::Get, "/"), Route::Quote);
    assert_eq!(route(Method::Get, "/s2id"), Route::Lookup);
    assert_eq!(route(Method::Post, "/s2id"), Route::Record);
    assert_eq!(route(Method::Post, "/"), Route::Unknown);
    assert_eq!(route(Method::Other, "/s2id"), Route::Unknown);
    assert_eq!(route(Method::Get, "/s2id/"), Route::Unknown);
    assert_eq!(route(Method::Get, ""), Route::Unknown);
}

#[test]
fn record_then_lookup() {
    let mut db = Database::new();
    let no_quotes: Vec<String> = Vec::new();
    let (status, body, contents) = persisted(client_dispatch(&mut db, &record(Some((1234, 99))), &no_quotes));
    assert_eq!((status, body.as_str()), (200, ""));
    let reloaded = Database::parse(&contents).unwrap();
    assert_eq!(reloaded.get(99), Some(1234));
    let (status, body, _) = persisted(client_dispatch(&mut db, &lookup(Some(99)), &no_quotes));
    assert_eq!(status, 200);
    assert_eq!(body, "{\"id\": 1234}");
    assert_eq!(db.get(99), Some(1234));
}

#[test]
fn unknown_serial_is_not_available() {
    let mut db = Database::new();
    let (status, body) = answered(client_dispatch(&mut db, &lookup(Some(5)), &Vec::new()));
    assert_eq!((status, body.as_str()), (418, "Data not available"));
    assert!(!db.contains(5));
}

#[test]
fn record_again_updates() {
    let mut db = Database::new();
    persisted(client_dispatch(&mut db, &record(Some((1, 7))), &Vec::new()));
    let (status, body) = answered(client_dispatch(&mut db, &record(Some((2, 7))), &Vec::new()));
    assert_eq!((status, body.as_str()), (208, "Updated"));
    assert_eq!(db.get(7), Some(2));
    let (_, body, _) = persisted(client_dispatch(&mut db, &lookup(Some(7)), &Vec::new()));
    assert_eq!(body, "{\"id\": 2}");
}

#[test]
fn malformed_queries() {
    let mut db = Database::new();
    let (status, body) = answered(client_dispatch(&mut db, &lookup(None), &Vec::new()));
    assert_eq!((status, body.as_str()), (400, "Bad request"));
    let (status, body) = answered(client_dispatch(&mut db, &record(None), &Vec::new()));
    assert_eq!((status, body.as_str()), (400, "Bad request"));
    assert!(!db.contains(0));
}

#[test]
fn not_found() {
    let mut db = Database::new();
    let (status, body, contents) = persisted(client_dispatch(&mut db, &other(Method::Get, "/nowhere"), &Vec::new()));
    assert_eq!((status, body.as_str()), (404, ""));
    assert_eq!(contents, "{}");
    let (status, _, _) = persisted(client_dispatch(&mut db, &other(Method::Other, "/s2id"), &Vec::new()));
    assert_eq!(status, 404);
}

#[test]
fn quotes() {
    let mut db = Database::new();
    let quotes = vec!["one".to_string(), "two".to_string()];
    for _ in 0..20 {
        let (status, body, _) = persisted(client_dispatch(&mut db, &other(Method::Get, "/"), &quotes));
        assert_eq!(status, 200);
        assert!(quotes.contains(&body));
    }
    let (status, body, _) = persisted(dispatch_with_quote(&mut db, &other(Method::Get, "/"), "given".to_string()));
    assert_eq!((status, body.as_str()), (200, "given"));
}

#[test]
fn write_failure() {
    let ok = after_write(Reply { status: 200, body: "x".to_string() }, true);
    assert_eq!((ok.status, ok.body.as_str()), (200, "x"));
    let failed = after_write(Reply { status: 200, body: "x".to_string() }, false);
    assert_eq!(
        (failed.status, failed.body.as_str()),
        (500, "Failed to write to persistant database.")
    );
}

#[test]
fn store_file() {
    assert_eq!(fresh_database_contents(), "{}");
    let db = Database::parse(&fresh_database_contents()).unwrap();
    assert!(!db.contains(0));
    let db = Database::parse("{\"12\": 34, \"56\": 78}").unwrap();
    assert_eq!(db.get(12), Some(34));
    assert_eq!(db.get(56), Some(78));
    assert_eq!(db.get(34), None);
    assert_eq!(Database::parse("[1, 2]").err(), Some(StoreError::Malformed));
    assert_eq!(Database::parse("{\"x\": 1}").err(), Some(StoreError::Malformed));
    let text = db.encode();
    let again = Database::parse(&text).unwrap();
    assert_eq!(again.get(12), Some(34));
    assert_eq!(again.get(56), Some(78));
}

#[test]
fn bind_addresses() {
    assert_eq!(bind_address("0.0.0.0", 7645), "0.0.0.0:7645");
    assert_eq!(bind_address("localhost", 0), "localhost:0");
}

#[test]
fn record_same_pair_twice() {
    let mut db = Database::new();
    persisted(client_dispatch(&mut db, &record(Some((5, 6))), &Vec::new()));
    let (status, body) = answered(client_dispatch(&mut db, &record(Some((5, 6))), &Vec::new()));
    assert_eq!((status, body.as_str()), (208, "Updated"));
    assert_eq!(db.get(6), Some(5));
}

#[test]
fn store_file_text() {
    let mut db = Database::new();
    let (_, _, contents) = persisted(client_dispatch(&mut db, &record(Some((1234, 99))), &Vec::new()));
    assert_eq!(contents, "{\"99\":1234}");
}

#[test]
fn lookup_body_is_json_of_the_id() {
    let mut db = Database::new();
    persisted(client_dispatch(&mut db, &record(Some((4294967295, 1))), &Vec::new()));
    let (_, body, _) = persisted(client_dispatch(&mut db, &lookup(Some(1)), &Vec::new()));
    let value: serde_json::Value = serde_json::from_str(&body).unwrap();
    assert_eq!(value["id"], 4294967295u32);
}

#[test]
fn bodies_tell_ids_apart() {
    let mut db = Database::new();
    persisted(client_dispatch(&mut db, &record(Some((12, 1))), &Vec::new()));
    persisted(client_dispatch(&mut db, &record(Some((121, 2))), &Vec::new()));
    let (_, a, _) = persisted(client_dispatch(&mut db, &lookup(Some(1)), &Vec::new()));
    let (_, b, _) = persisted(client_dispatch(&mut db, &lookup(Some(2)), &Vec::new()));
    assert_ne!(a, b);
}

#[test]
fn lookups_change_nothing() {
    let mut db = Database::new();
    persisted(client_dispatch(&mut db, &record(Some((3, 4))), &Vec::new()));
    persisted(client_dispatch(&mut db, &lookup(Some(4)), &Vec::new()));
    answered(client_dispatch(&mut db, &lookup(Some(5)), &Vec::new()));
    persisted(client_dispatch(&mut db, &other(Method::Get, "/other"), &Vec::new()));
    assert_eq!(db.get(4), Some(3));
    assert!(!db.contains(5));
    let (_, _, contents) = persisted(client_dispatch(&mut db, &other(Method::Get, "/"), &vec!["q".to_string()]));
    assert_eq!(contents, "{\"4\":3}");
}

#[test]
fn lookup_after_other_requests() {
    let mut db = Database::new();
    persisted(client_dispatch(&mut db, &record(Some((77, 10))), &Vec::new()));
    persisted(client_dispatch(&mut db, &record(Some((1, 11))), &Vec::new()));
    answered(client_dispatch(&mut db, &lookup(Some(12)), &Vec::new()));
    answered(client_dispatch(&mut db, &record(None), &Vec::new()));
    persisted(client_dispatch(&mut db, &other(Method::Post, "/"), &Vec::new()));
    let (status, body, _) = persisted(client_dispatch(&mut db, &lookup(Some(10)), &Vec::new()));
    assert_eq!((status, body.as_str()), (200, "{\"id\": 77}"));
}
