//! The s2id server: a store from card serials to student ids, and the
//! answer it gives to each request.
//!
//! A request is routed by its method and path. `GET /` answers a quote,
//! `GET /s2id?serial=S` looks a serial up and `POST /s2id?id=I&serial=S`
//! records one; anything else is not found. Some answers go out at once;
//! the others wait until the whole store has been written back to its file.

use rand::seq::SliceRandom;
use std::collections::HashMap;
use vstd::prelude::*;

use crate::decimal::{
    canonical_decimal, decimal, decimal_string, decimal_value, lemma_decimal_canonical,
};

verus! {

broadcast use vstd::std_specs::hash::group_hash_axioms;

/// `serde_json::Error`, the error of reading or writing the store's file.
#[verifier::external_type_specification]
#[verifier::external_body]
pub struct ExJsonError(serde_json::Error);

/// The method of a request, as far as routing tells methods apart.
#[derive(Clone, Copy, Debug, PartialEq, Eq, Structural)]
pub enum Method {
    Get,
    Post,
    Other,
}

/// Where a request is routed.
#[derive(Clone, Copy, Debug, PartialEq, Eq, Structural)]
pub enum Route {
    /// `GET /`
    Quote,
    /// `GET /s2id`
    Lookup,
    /// `POST /s2id`
    Record,
    /// Every other method and path.
    Unknown,
}

/// The query of a lookup: `serial=S`.
#[derive(Clone, Copy, Debug, PartialEq, Eq, Structural)]
pub struct SerialToId {
    pub serial: u32,
}

/// The query of a record: `id=I&serial=S`.
#[derive(Clone, Copy, Debug, PartialEq, Eq, Structural)]
pub struct IdToSerial {
    pub id: u32,
    pub serial: u32,
}

/// A request as the server reads it. Each query field holds the query
/// string read as that query, or `None` where it does not read so.
pub struct Request {
    pub method: Method,
    pub path: String,
    pub lookup: Option<SerialToId>,
    pub record: Option<IdToSerial>,
}

/// What the contracts see of a [`Request`].
pub struct RequestView {
    pub method: Method,
    pub path: Seq<char>,
    pub lookup: Option<SerialToId>,
    pub record: Option<IdToSerial>,
}

impl View for Request {
    type V = RequestView;

    open spec fn view(&self) -> RequestView {
        RequestView {
            method: self.method,
            path: self.path@,
            lookup: self.lookup,
            record: self.record,
        }
    }
}

/// An HTTP answer: its status code and its body.
pub struct Reply {
    pub status: u16,
    pub body: String,
}

impl View for Reply {
    type V = (u16, Seq<char>);

    open spec fn view(&self) -> (u16, Seq<char>) {
        (self.status, self.body@)
    }
}

/// What the server does with a request once the store has been consulted.
pub enum Dispatch {
    /// The reply goes out as it stands; the store's file is left alone.
    Answer(Reply),
    /// The store's file is overwritten with `contents`; then the reply goes
    /// out if that write succeeded (see [`after_write`]).
    Persist { reply: Reply, contents: String },
}

/// Why the store could not be read from its file.
#[derive(Clone, Copy, Debug, PartialEq, Eq, Structural)]
pub enum StoreError {
    /// The file's text is not a JSON object from serials to ids.
    Malformed,
}

/// A name for what `serde_json::from_str::<HashMap<u32, u32>>` makes of a
/// text: the map it denotes, or `None` where it rejects the text.
pub uninterp spec fn json_u32_map(text: Seq<char>) -> Option<Map<u32, u32>>;

/// Calls `serde_json::from_str::<HashMap<u32, u32>>`. Trusted: the result is
/// `Ok` exactly where [`json_u32_map`] is `Some`, and then holds that map.
#[verifier::external_body]
fn decode_u32_map(text: &str) -> (res: Result<HashMap<u32, u32>, serde_json::Error>)
    ensures
        res is Ok <==> json_u32_map(text@) is Some,
        res matches Ok(m) ==> json_u32_map(text@) == Some(m@),
{
    serde_json::from_str(text)
}

/// Calls `serde_json::to_string` on a `HashMap<u32, u32>`. Trusted: it
/// succeeds (the text is written into a `Vec`, which never fails, and `u32`
/// keys are written as quoted decimals), and the text reads back, through
/// `serde_json::from_str`, as the same map. The order of the entries in the
/// text is that of the map's walk, which is left unsaid.
#[verifier::external_body]
fn encode_u32_map(map: &HashMap<u32, u32>) -> (res: Result<String, serde_json::Error>)
    ensures
        res is Ok,
        res matches Ok(text) ==> json_u32_map(text@) == Some(map@),
{
    serde_json::to_string(map)
}

/// Calls `SliceRandom::choose` with the thread's random generator and clones
/// the pick. Trusted: `None` exactly for an empty list, and otherwise one of
/// the list's strings; which one is left to chance.
#[verifier::external_body]
fn choose_quote(quotes: &Vec<String>) -> (res: Option<String>)
    ensures
        res is None <==> quotes@.len() == 0,
        res matches Some(q) ==> exists|i: int| 0 <= i < quotes@.len() && quotes@[i]@ == q@,
{
    quotes.choose(&mut rand::thread_rng()).cloned()
}

/// The mapping from card serials to student ids.
pub struct Database {
    map: HashMap<u32, u32>,
}

impl View for Database {
    type V = Map<u32, u32>;

    closed spec fn view(&self) -> Map<u32, u32> {
        self.map@
    }
}

impl Database {
    /// An empty store.
    pub fn new() -> (db: Self)
        ensures
            db@ == Map::<u32, u32>::empty(),
    {
        Database { map: HashMap::new() }
    }

    /// Reads a store from the text of its file.
    pub fn parse(text: &str) -> (res: Result<Database, StoreError>)
        ensures
            res is Ok <==> json_u32_map(text@) is Some,
            res matches Ok(db) ==> json_u32_map(text@) == Some(db@),
            res matches Err(e) ==> e == StoreError::Malformed,
    {
        match decode_u32_map(text) {
            Ok(map) => Ok(Database { map }),
            Err(_) => Err(StoreError::Malformed),
        }
    }

    /// Renders the store as the text of its file; the text reads back as
    /// the store.
    pub fn encode(&self) -> (text: String)
        ensures
            json_u32_map(text@) == Some(self@),
    {
        match encode_u32_map(&self.map) {
            Ok(text) => text,
            Err(_) => {
                // `encode_u32_map` always succeeds.
                assert(false);
                String::new()
            },
        }
    }

    /// Whether `serial` is on record.
    pub fn contains(&self, serial: u32) -> (b: bool)
        ensures
            b == self@.contains_key(serial),
    {
        self.map.contains_key(&serial)
    }

    /// The id recorded for `serial`, if any.
    pub fn get(&self, serial: u32) -> (res: Option<u32>)
        ensures
            res == (if self@.contains_key(serial) {
                Some(self@[serial])
            } else {
                None
            }),
    {
        match self.map.get(&serial) {
            Some(id) => Some(*id),
            None => None,
        }
    }

    /// Records `id` for `serial`, replacing what was there; says whether
    /// `serial` was on record before.
    pub fn insert(&mut self, serial: u32, id: u32) -> (already: bool)
        ensures
            final(self)@ == old(self)@.insert(serial, id),
            already == old(self)@.contains_key(serial),
    {
        let previous = self.map.insert(serial, id);
        previous.is_some()
    }
}

/// The text of a store's file when nothing is on record; it reads back as
/// the empty store.
pub fn fresh_database_contents() -> (s: String)
    ensures
        json_u32_map(s@) == Some(Map::<u32, u32>::empty()),
{
    Database::new().encode()
}

/// Where a request with this method and path goes.
pub open spec fn route_of(method: Method, path: Seq<char>) -> Route {
    if method == Method::Get && path == "/"@ {
        Route::Quote
    } else if method == Method::Get && path == "/s2id"@ {
        Route::Lookup
    } else if method == Method::Post && path == "/s2id"@ {
        Route::Record
    } else {
        Route::Unknown
    }
}

/// Routes a request by its method and path.
pub fn route(method: Method, path: &str) -> (r: Route)
    ensures
        r == route_of(method, path@),
{
    let path = path.to_owned();
    if method == Method::Get && path == "/".to_owned() {
        Route::Quote
    } else if path == "/s2id".to_owned() {
        if method == Method::Get {
            Route::Lookup
        } else if method == Method::Post {
            Route::Record
        } else {
            Route::Unknown
        }
    } else {
        Route::Unknown
    }
}

/// The body that answers a lookup of a serial recorded with `id`:
/// `{"id": ID}`.
pub open spec fn id_body(id: u32) -> Seq<char> {
    "{\"id\": "@ + decimal(id as nat) + "}"@
}

/// The answer to a malformed query.
pub open spec fn bad_request() -> (u16, Seq<char>) {
    (400, "Bad request"@)
}

/// The answer to a lookup of a serial that is not on record.
pub open spec fn not_available() -> (u16, Seq<char>) {
    (418, "Data not available"@)
}

/// The answer to a record of a serial that was on record already.
pub open spec fn updated() -> (u16, Seq<char>) {
    (208, "Updated"@)
}

/// The answer when the store could not be written back.
pub open spec fn write_failed() -> (u16, Seq<char>) {
    (500, "Failed to write to persistant database."@)
}

/// The store after request `r` on store `m`: only a well-formed record
/// changes it.
pub open spec fn next_map(m: Map<u32, u32>, r: RequestView) -> Map<u32, u32> {
    if route_of(r.method, r.path) == Route::Record && r.record is Some {
        m.insert(r.record.unwrap().serial, r.record.unwrap().id)
    } else {
        m
    }
}

/// Whether the answer to `r` on store `m` waits on writing the store back.
pub open spec fn writes_back(m: Map<u32, u32>, r: RequestView) -> bool {
    match route_of(r.method, r.path) {
        Route::Quote => true,
        Route::Lookup => r.lookup matches Some(q) && m.contains_key(q.serial),
        Route::Record => r.record matches Some(q) && !m.contains_key(q.serial),
        Route::Unknown => true,
    }
}

/// The answer to `r` on store `m`, where `quote` is the quote picked for
/// `GET /`.
pub open spec fn answer(m: Map<u32, u32>, r: RequestView, quote: Seq<char>) -> (u16, Seq<char>) {
    match route_of(r.method, r.path) {
        Route::Quote => (200, quote),
        Route::Lookup => match r.lookup {
            None => bad_request(),
            Some(q) => if m.contains_key(q.serial) {
                (200, id_body(m[q.serial]))
            } else {
                not_available()
            },
        },
        Route::Record => match r.record {
            None => bad_request(),
            Some(q) => if m.contains_key(q.serial) {
                updated()
            } else {
                (200, Seq::empty())
            },
        },
        Route::Unknown => (404, Seq::empty()),
    }
}

/// `d` and the store `after` are what the server makes of request `r` on
/// store `m`, with `quote` picked for `GET /`.
pub open spec fn dispatch_matches(
    m: Map<u32, u32>,
    r: RequestView,
    quote: Seq<char>,
    d: Dispatch,
    after: Map<u32, u32>,
) -> bool {
    &&& after == next_map(m, r)
    &&& if writes_back(m, r) {
        d matches Dispatch::Persist { reply, contents } && reply@ == answer(m, r, quote)
            && json_u32_map(contents@) == Some(after)
    } else {
        d matches Dispatch::Answer(reply) && reply@ == answer(m, r, quote)
    }
}

/// A serial recorded for an id is then looked up as that id: the lookup
/// answers 200 with body `{"id": ID}`, and its answer waits on writing the
/// store back.
pub proof fn lemma_lookup_after_record(
    m: Map<u32, u32>,
    record: RequestView,
    lookup: RequestView,
    quote: Seq<char>,
)
    requires
        route_of(record.method, record.path) == Route::Record,
        record.record is Some,
        route_of(lookup.method, lookup.path) == Route::Lookup,
        lookup.lookup == Some(SerialToId { serial: record.record.unwrap().serial }),
    ensures
        answer(next_map(m, record), lookup, quote) == (200u16, id_body(record.record.unwrap().id)),
        writes_back(next_map(m, record), lookup),
{
}

/// A request whose answer waits on a write does write the store back, and
/// what it writes reads back, through [`Database::parse`], as the store the
/// request left.
pub proof fn lemma_written_store_reads_back(
    m: Map<u32, u32>,
    r: RequestView,
    quote: Seq<char>,
    d: Dispatch,
    after: Map<u32, u32>,
)
    requires
        dispatch_matches(m, r, quote, d, after),
        writes_back(m, r),
    ensures
        d is Persist,
        json_u32_map(d->contents@) == Some(after),
        after == next_map(m, r),
{
}

/// The store after the requests `rs`, one after the other, on store `m`.
pub open spec fn run(m: Map<u32, u32>, rs: Seq<RequestView>) -> Map<u32, u32>
    decreases rs.len(),
{
    if rs.len() == 0 {
        m
    } else {
        next_map(run(m, rs.drop_last()), rs.last())
    }
}

/// Whether request `r` is a well-formed record of `serial`.
pub open spec fn records_serial(r: RequestView, serial: u32) -> bool {
    &&& route_of(r.method, r.path) == Route::Record
    &&& r.record matches Some(q) && q.serial == serial
}

/// Requests that record other serials leave the entry of `serial` alone.
pub proof fn lemma_run_keeps_entry(m: Map<u32, u32>, rs: Seq<RequestView>, serial: u32)
    requires
        forall|j: int| 0 <= j < rs.len() ==> !records_serial(#[trigger] rs[j], serial),
    ensures
        run(m, rs).contains_key(serial) == m.contains_key(serial),
        m.contains_key(serial) ==> run(m, rs)[serial] == m[serial],
    decreases rs.len(),
{
    if rs.len() > 0 {
        let init = rs.drop_last();
        assert forall|j: int| 0 <= j < init.len() implies !records_serial(#[trigger] init[j], serial) by {
            assert(init[j] == rs[j]);
        }
        lemma_run_keeps_entry(m, init, serial);
        assert(!records_serial(rs[rs.len() - 1], serial));
    }
}

/// A serial recorded for an id is looked up as that id however many requests
/// come between, as long as none of them records that serial again: the
/// lookup answers 200 with body `{"id": ID}`, and waits on writing the store
/// back.
pub proof fn lemma_lookup_after_records(
    m: Map<u32, u32>,
    record: RequestView,
    between: Seq<RequestView>,
    lookup: RequestView,
    quote: Seq<char>,
)
    requires
        route_of(record.method, record.path) == Route::Record,
        record.record is Some,
        forall|j: int|
            0 <= j < between.len() ==> !records_serial(
                #[trigger] between[j],
                record.record.unwrap().serial,
            ),
        route_of(lookup.method, lookup.path) == Route::Lookup,
        lookup.lookup == Some(SerialToId { serial: record.record.unwrap().serial }),
    ensures
        answer(run(next_map(m, record), between), lookup, quote) == (200u16, id_body(
            record.record.unwrap().id,
        )),
        writes_back(run(next_map(m, record), between), lookup),
{
    lemma_run_keeps_entry(next_map(m, record), between, record.record.unwrap().serial);
}

/// The body of a lookup is the JSON object `{"id": N}` with N the recorded
/// id in canonical decimal: the text `{"id": ` (with one space), then the
/// digits, which read back as the id, then `}`.
pub proof fn lemma_id_body_shape(id: u32)
    ensures
        ({
            let b = id_body(id);
            &&& b.len() > 8
            &&& b.subrange(0, 7) == seq!['{', '"', 'i', 'd', '"', ':', ' ']
            &&& b.last() == '}'
            &&& canonical_decimal(b.subrange(7, b.len() - 1))
            &&& decimal_value(b.subrange(7, b.len() - 1)) == id
        }),
{
    reveal_strlit("{\"id\": ");
    reveal_strlit("}");
    lemma_decimal_canonical(id as nat);
    let b = id_body(id);
    assert(b.subrange(0, 7) =~= "{\"id\": "@);
    assert(b.subrange(7, b.len() - 1) =~= decimal(id as nat));
}

/// How a well-formed record of a serial is answered, for every store and
/// id: "Updated" (208) exactly when the serial was on record, whatever id it
/// held; otherwise 200 with an empty body. The id recorded plays no part in
/// the answer.
pub proof fn lemma_record_answer(m: Map<u32, u32>, r: RequestView, other: RequestView, quote: Seq<char>)
    requires
        route_of(r.method, r.path) == Route::Record,
        r.record is Some,
        route_of(other.method, other.path) == Route::Record,
        other.record matches Some(q) && q.serial == r.record.unwrap().serial,
    ensures
        m.contains_key(r.record.unwrap().serial) ==> answer(m, r, quote) == (208u16, "Updated"@),
        !m.contains_key(r.record.unwrap().serial) ==> answer(m, r, quote) == (200u16, Seq::<char>::empty()),
        answer(m, r, quote) == answer(m, other, quote),
        m.contains_key(r.record.unwrap().serial) <==> !writes_back(m, r),
{
}

/// Only `GET /` draws a quote, only `GET /s2id` looks up, only `POST /s2id`
/// records; every other method and path is not found, answered 404 with an
/// empty body and nothing recorded.
pub proof fn lemma_routes(m: Map<u32, u32>, r: RequestView, quote: Seq<char>)
    ensures
        route_of(r.method, r.path) == Route::Quote <==> (r.method == Method::Get && r.path == "/"@),
        route_of(r.method, r.path) == Route::Lookup <==> (r.method == Method::Get && r.path
            == "/s2id"@),
        route_of(r.method, r.path) == Route::Record <==> (r.method == Method::Post && r.path
            == "/s2id"@),
        (r.method != Method::Get && r.method != Method::Post) ==> route_of(r.method, r.path)
            == Route::Unknown,
        (r.path != "/"@ && r.path != "/s2id"@) ==> route_of(r.method, r.path) == Route::Unknown,
        route_of(r.method, r.path) == Route::Unknown ==> answer(m, r, quote) == (
            404u16,
            Seq::<char>::empty(),
        ) && next_map(m, r) == m,
{
    reveal_strlit("/");
    reveal_strlit("/s2id");
    assert("/"@.len() == 1);
    assert("/s2id"@.len() == 5);
    assert("/"@ != "/s2id"@);
}

/// How a lookup is answered, for every store and serial: 200 with the body
/// of the recorded id where the serial is on record, 418 "Data not
/// available" where it is not; a lookup never changes the store.
pub proof fn lemma_lookup_answer(m: Map<u32, u32>, r: RequestView, quote: Seq<char>)
    requires
        route_of(r.method, r.path) == Route::Lookup,
        r.lookup is Some,
    ensures
        m.contains_key(r.lookup.unwrap().serial) ==> answer(m, r, quote) == (200u16, id_body(
            m[r.lookup.unwrap().serial],
        )),
        !m.contains_key(r.lookup.unwrap().serial) ==> answer(m, r, quote) == (
            418u16,
            "Data not available"@,
        ),
        m.contains_key(r.lookup.unwrap().serial) <==> writes_back(m, r),
        next_map(m, r) == m,
{
}

/// Only a well-formed record changes the store.
pub proof fn lemma_only_records_change(m: Map<u32, u32>, r: RequestView)
    requires
        !(route_of(r.method, r.path) == Route::Record && r.record is Some),
    ensures
        next_map(m, r) == m,
{
}

/// Recording the same serial for the same id twice leaves the store as the
/// first record left it; the second record answers "Updated" and writes
/// nothing.
pub proof fn lemma_record_twice(m: Map<u32, u32>, r: RequestView, quote: Seq<char>)
    requires
        route_of(r.method, r.path) == Route::Record,
        r.record is Some,
    ensures
        next_map(next_map(m, r), r) == next_map(m, r),
        answer(next_map(m, r), r, quote) == updated(),
        !writes_back(next_map(m, r), r),
{
    assert(next_map(next_map(m, r), r) =~= next_map(m, r));
}

/// A lookup or a record whose query does not read as one is answered "Bad
/// request", changes nothing and writes nothing.
pub proof fn lemma_malformed_query(m: Map<u32, u32>, r: RequestView, quote: Seq<char>)
    requires
        (route_of(r.method, r.path) == Route::Lookup && r.lookup is None) || (route_of(
            r.method,
            r.path,
        ) == Route::Record && r.record is None),
    ensures
        answer(m, r, quote) == bad_request(),
        next_map(m, r) == m,
        !writes_back(m, r),
{
}

/// Different ids are answered with different bodies: the body of a lookup
/// tells the recorded id.
pub proof fn lemma_id_body_injective(a: u32, b: u32)
    requires
        id_body(a) == id_body(b),
    ensures
        a == b,
{
    let p = "{\"id\": "@;
    let q = "}"@;
    let da = decimal(a as nat);
    let db = decimal(b as nat);
    assert(id_body(a).len() == p.len() + da.len() + q.len());
    assert(id_body(b).len() == p.len() + db.len() + q.len());
    assert(da =~= id_body(a).subrange(p.len() as int, (p.len() + da.len()) as int));
    assert(db =~= id_body(b).subrange(p.len() as int, (p.len() + db.len()) as int));
    crate::decimal::lemma_decimal_value(a as nat);
    crate::decimal::lemma_decimal_value(b as nat);
}

/// Renders `{"id": ID}`.
fn id_body_string(id: u32) -> (s: String)
    ensures
        s@ == id_body(id),
{
    let mut s = "{\"id\": ".to_owned();
    let digits = decimal_string(id);
    s.append(digits.as_str());
    s.append("}");
    s
}

fn reply(status: u16, body: &str) -> (r: Reply)
    ensures
        r@ == (status, body@),
{
    Reply { status, body: body.to_owned() }
}

fn empty_reply(status: u16) -> (r: Reply)
    ensures
        r@ == (status, Seq::<char>::empty()),
{
    Reply { status, body: String::new() }
}

/// Handles one request on the store, with `quote` as the answer to `GET /`.
pub fn dispatch_with_quote(db: &mut Database, request: &Request, quote: String) -> (d: Dispatch)
    ensures
        dispatch_matches(old(db)@, request@, quote@, d, final(db)@),
        writes_back(old(db)@, request@) <==> d is Persist,
{
    let r = route(request.method, request.path.as_str());
    let answer = match r {
        Route::Quote => Reply { status: 200, body: quote },
        Route::Lookup => match request.lookup {
            None => {
                return Dispatch::Answer(reply(400, "Bad request"));
            },
            Some(q) => match db.get(q.serial) {
                None => {
                    return Dispatch::Answer(reply(418, "Data not available"));
                },
                Some(id) => Reply { status: 200, body: id_body_string(id) },
            },
        },
        Route::Record => match request.record {
            None => {
                return Dispatch::Answer(reply(400, "Bad request"));
            },
            Some(q) => {
                let already = db.insert(q.serial, q.id);
                if already {
                    return Dispatch::Answer(reply(208, "Updated"));
                }
                empty_reply(200)
            },
        },
        Route::Unknown => empty_reply(404),
    };
    let contents = db.encode();
    Dispatch::Persist { reply: answer, contents }
}

/// Handles one request on the store; `GET /` is answered with a quote drawn
/// at random from `quotes`.
pub fn client_dispatch(db: &mut Database, request: &Request, quotes: &Vec<String>) -> (d: Dispatch)
    requires
        route_of(request@.method, request@.path) == Route::Quote ==> quotes@.len() > 0,
    ensures
        route_of(request@.method, request@.path) == Route::Quote ==> exists|i: int|
            0 <= i < quotes@.len() && dispatch_matches(
                old(db)@,
                request@,
                #[trigger] quotes@[i]@,
                d,
                final(db)@,
            ),
        route_of(request@.method, request@.path) != Route::Quote ==> dispatch_matches(
            old(db)@,
            request@,
            Seq::empty(),
            d,
            final(db)@,
        ),
        writes_back(old(db)@, request@) <==> d is Persist,
{
    let r = route(request.method, request.path.as_str());
    if r == Route::Quote {
        match choose_quote(quotes) {
            Some(quote) => {
                let ghost q = quote@;
                let d = dispatch_with_quote(db, request, quote);
                let ghost i = choose|i: int| 0 <= i < quotes@.len() && quotes@[i]@ == q;
                assert(dispatch_matches(old(db)@, request@, quotes@[i]@, d, final(db)@));
                d
            },
            None => {
                // `choose_quote` answers `None` only for an empty list.
                assert(false);
                dispatch_with_quote(db, request, String::new())
            },
        }
    } else {
        dispatch_with_quote(db, request, String::new())
    }
}

/// The reply that goes out after the store was written back (`written`) or
/// failed to be.
pub fn after_write(reply: Reply, written: bool) -> (r: Reply)
    ensures
        written ==> r@ == reply@,
        !written ==> r@ == write_failed(),
{
    if written {
        reply
    } else {
        Reply { status: 500, body: "Failed to write to persistant database.".to_owned() }
    }
}

/// The address the server binds to: `HOST:PORT`.
pub fn bind_address(host: &str, port: u16) -> (s: String)
    ensures
        s@ == host@ + ":"@ + decimal(port as nat),
{
    let mut s = host.to_owned();
    s.append(":");
    let digits = decimal_string(port as u32);
    s.append(digits.as_str());
    s
}

} // verus!
