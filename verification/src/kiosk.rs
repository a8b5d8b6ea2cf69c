//! The kiosk: it reads a card's serial, asks the s2id server which student
//! the serial belongs to, and reads the answer.
//!
//! Each turn of the kiosk's loop is a step here: the program performs the
//! action a step returns and hands its outcome back as the next event.

use vstd::prelude::*;

use crate::decimal::{
    canonical_decimal, decimal, decimal_string, decimal_value, lemma_decimal_canonical,
};
use crate::server::{answer, route_of, RequestView, Route};
use crate::uri::{parse_uri, uri_accepts, RequestUri};

verus! {

/// The code of an error in reaching the server.
pub const REQUEST_ERROR: u8 = 0;

/// The code of an error the server blames on the kiosk (a 4xx status).
pub const CLIENT_ERROR: u8 = 0;

/// The code of an error the server blames on itself (a 5xx status).
pub const SERVER_ERROR: u8 = 0;

/// The server's answer to a lookup: the student's id.
#[derive(Clone, Copy, Debug, PartialEq, Eq, Structural)]
pub struct IdResponse {
    pub id: u32,
}

/// A kiosk's record of a serial for a student's id.
#[derive(Clone, Copy, Debug, PartialEq, Eq, Structural)]
pub struct SerialToIdSendof {
    pub id: u32,
    pub serial: u32,
}

/// How a status code of the server's answer reads.
#[derive(Clone, Copy, Debug, PartialEq, Eq, Structural)]
pub enum StatusError {
    /// 418: the serial is not on record; its holder has to register.
    NotFound,
    /// Any other client or server error.
    Other,
}

/// Status 418 asks for registration; other 4xx and 5xx statuses are errors;
/// everything else is fine.
pub open spec fn status_outcome(status: u16) -> Result<(), StatusError> {
    if status == 418 {
        Err(StatusError::NotFound)
    } else if 400 <= status < 600 {
        Err(StatusError::Other)
    } else {
        Ok(())
    }
}

/// Reports a kiosk error to whoever stands at the kiosk; `error` is one of
/// the error codes. The kiosk has no device to report on yet, so nothing
/// happens.
pub fn handle_error(error: u8)
    requires
        error == REQUEST_ERROR || error == CLIENT_ERROR || error == SERVER_ERROR,
{
}

/// Asks whoever stands at the kiosk for the id the card is to be registered
/// for. The kiosk has no input device yet, so nothing is asked.
pub fn get_inputed_id() {
}

/// Registers the holder of a card that is not on record.
pub fn register() {
    get_inputed_id();
}

/// Reads the status code of the server's answer; reports client and server
/// errors on the way.
pub fn check_status(status: u16) -> (res: Result<(), StatusError>)
    ensures
        res == status_outcome(status),
{
    if status == 418 {
        Err(StatusError::NotFound)
    } else if 400 <= status && status < 500 {
        handle_error(CLIENT_ERROR);
        Err(StatusError::Other)
    } else if 500 <= status && status < 600 {
        handle_error(SERVER_ERROR);
        Err(StatusError::Other)
    } else {
        Ok(())
    }
}

/// How the kiosk reads a status code, for every code: only 418 asks for
/// registration; every other code from 400 up to 599 is an error; every
/// code outside that range is fine.
pub proof fn lemma_status_reading(status: u16)
    ensures
        status_outcome(status) == Err::<(), StatusError>(StatusError::NotFound) <==> status == 418,
        status_outcome(status) == Err::<(), StatusError>(StatusError::Other) <==> (status != 418
            && 400 <= status && status < 600),
        status_outcome(status) == Ok::<(), StatusError>(()) <==> (status < 400 || status >= 600),
{
}

/// The lookup's address names the card's serial exactly: it is the server's
/// address, then `/s2id?serial=`, then the serial in canonical decimal,
/// which reads back as the serial.
pub proof fn lemma_request_names_serial(resource: Seq<char>, serial: u32)
    ensures
        ({
            let text = request_text(resource, serial);
            let k = resource.len() + 13;
            &&& text.len() > k
            &&& text.subrange(0, k as int) == resource + seq![
                '/',
                's',
                '2',
                'i',
                'd',
                '?',
                's',
                'e',
                'r',
                'i',
                'a',
                'l',
                '=',
            ]
            &&& canonical_decimal(text.subrange(k as int, text.len() as int))
            &&& decimal_value(text.subrange(k as int, text.len() as int)) == serial
        }),
{
    reveal_strlit("/s2id?serial=");
    lemma_decimal_canonical(serial as nat);
    let text = request_text(resource, serial);
    let k = resource.len() + 13;
    assert(text.subrange(0, k as int) =~= resource + "/s2id?serial="@);
    assert(text.subrange(k as int, text.len() as int) =~= decimal(serial as nat));
}

/// Different serials are looked up at different addresses.
pub proof fn lemma_request_injective(resource: Seq<char>, a: u32, b: u32)
    requires
        request_text(resource, a) == request_text(resource, b),
    ensures
        a == b,
{
    lemma_request_names_serial(resource, a);
    lemma_request_names_serial(resource, b);
}

/// The server a kiosk asks: `http://HOST:PORT`.
pub open spec fn resource_text(host: Seq<char>, port: u16) -> Seq<char> {
    "http://"@ + host + ":"@ + decimal(port as nat)
}

/// The address of the lookup of `serial` at `resource`.
pub open spec fn request_text(resource: Seq<char>, serial: u32) -> Seq<char> {
    resource + "/s2id?serial="@ + decimal(serial as nat)
}

/// Renders the server a kiosk asks, from the configured host and port.
pub fn kiosk_resource(host: &str, port: u16) -> (s: String)
    ensures
        s@ == resource_text(host@, port),
{
    let mut s = "http://".to_owned();
    s.append(host);
    s.append(":");
    let digits = decimal_string(port as u32);
    s.append(digits.as_str());
    s
}

/// Renders the address of the lookup of `serial` at `resource`.
pub fn s2id_request_uri(resource: &str, serial: u32) -> (s: String)
    ensures
        s@ == request_text(resource@, serial),
{
    let mut s = resource.to_owned();
    s.append("/s2id?serial=");
    let digits = decimal_string(serial);
    s.append(digits.as_str());
    s
}

/// What happened since the kiosk's last step.
pub enum KioskEvent {
    /// A card was read.
    SerialRead(u32),
    /// The server could not be reached.
    RequestFailed,
    /// The server answered with this status code.
    Responded(u16),
    /// The body of the server's answer was read as an id.
    BodyRead(IdResponse),
}

/// What the kiosk does next.
pub enum KioskAction {
    /// Wait for the next card.
    ReadSerial,
    /// Send a lookup to this address.
    Get(RequestUri),
    /// Stop: the lookup's address is no URI.
    Halt,
    /// Read the body of the server's answer.
    ReadBody,
    /// The card belongs to the student with this id; wait for the next card.
    Identified(u32),
}

/// What the kiosk does after the lookup's address was parsed.
pub fn request_action(parsed: Result<RequestUri, hyper::http::uri::InvalidUri>) -> (a: KioskAction)
    ensures
        match parsed {
            Ok(uri) => a == KioskAction::Get(uri),
            Err(_) => a is Halt,
        },
{
    match parsed {
        Ok(uri) => KioskAction::Get(uri),
        Err(_) => KioskAction::Halt,
    }
}

/// What the kiosk does after the server answered with `status`: read the
/// body where the status is fine, register the card's holder first where
/// the serial is not on record, and wait for the next card otherwise.
pub open spec fn status_action_is(status: u16, a: KioskAction) -> bool {
    match status_outcome(status) {
        Ok(()) => a is ReadBody,
        Err(StatusError::NotFound) => a is ReadBody,
        Err(StatusError::Other) => a is ReadSerial,
    }
}

/// One step of the kiosk at the server `resource`.
pub fn kiosk_step(resource: &str, event: KioskEvent) -> (a: KioskAction)
    ensures
        match event {
            KioskEvent::SerialRead(serial) => {
                &&& a is Get <==> uri_accepts(request_text(resource@, serial))
                &&& a matches KioskAction::Get(p) ==> p.source() == request_text(resource@, serial)
                &&& !uri_accepts(request_text(resource@, serial)) ==> a is Halt
            },
            KioskEvent::RequestFailed => a is ReadSerial,
            KioskEvent::Responded(status) => status_action_is(status, a),
            KioskEvent::BodyRead(response) => a == KioskAction::Identified(response.id),
        },
{
    match event {
        KioskEvent::SerialRead(serial) => {
            let text = s2id_request_uri(resource, serial);
            request_action(parse_uri(text.as_str()))
        },
        KioskEvent::RequestFailed => {
            handle_error(REQUEST_ERROR);
            KioskAction::ReadSerial
        },
        KioskEvent::Responded(status) => match check_status(status) {
            Ok(()) => KioskAction::ReadBody,
            Err(StatusError::NotFound) => {
                register();
                KioskAction::ReadBody
            },
            Err(StatusError::Other) => KioskAction::ReadSerial,
        },
        KioskEvent::BodyRead(response) => KioskAction::Identified(response.id),
    }
}

/// The kiosk reads the server's answers to lookups as the server means them:
/// a serial on record is fine and its body is read, a serial not on record
/// asks for registration, and a malformed query is an error after which the
/// kiosk waits for the next card.
pub proof fn lemma_kiosk_reads_lookup_answers(
    m: Map<u32, u32>,
    r: RequestView,
    quote: Seq<char>,
    a: KioskAction,
)
    requires
        route_of(r.method, r.path) == Route::Lookup,
        status_action_is(answer(m, r, quote).0, a),
    ensures
        status_outcome(answer(m, r, quote).0) == match r.lookup {
            None => Err(StatusError::Other),
            Some(q) => if m.contains_key(q.serial) {
                Ok(())
            } else {
                Err(StatusError::NotFound)
            },
        },
        r.lookup is Some ==> a is ReadBody,
        r.lookup is None ==> a is ReadSerial,
{
}

} // verus!
