//! A session with the token stream.

use crate::display::{GREEN, RED, RESET};
use crate::events::{event_of, handle_ws_message, StreamEvent, StreamEventView};
use crate::sniper::{key_message, keyed_message};
use crate::state::line_views;
use crate::text::utf8_text;
use vstd::prelude::*;
use vstd::string::*;
use vstd::utf8::*;

verus! {

/// Where the stream comes from.
pub const PUMPPORTAL_WS: &'static str = "wss://pumpportal.fun/api/data";

pub open spec fn keyed_url(api_key: Seq<char>) -> Seq<char> {
    PUMPPORTAL_WS@ + "?api-key="@ + api_key
}

/// The address of the stream for an API key.
pub fn stream_url(api_key: &str) -> (r: String)
    ensures
        r@ == keyed_url(api_key@),
{
    let mut s = PUMPPORTAL_WS.to_owned();
    s.append("?api-key=");
    s.append(api_key);
    s
}

/// What a session asks for first: new tokens, migrations and the wallet's own
/// trades.
pub open spec fn opening(wallet: Seq<char>) -> Seq<Seq<char>> {
    seq![
        "{\"method\":\"subscribeNewToken\"}"@,
        "{\"method\":\"subscribeMigration\"}"@,
        keyed_message("subscribeAccountTrade"@, wallet),
    ]
}

/// The messages that a session starts with.
pub fn opening_messages(wallet: &str) -> (r: Vec<String>)
    ensures
        line_views(r@) == opening(wallet@),
{
    let mut v: Vec<String> = Vec::new();
    v.push("{\"method\":\"subscribeNewToken\"}".to_owned());
    v.push("{\"method\":\"subscribeMigration\"}".to_owned());
    v.push(key_message("subscribeAccountTrade", wallet));
    proof {
        assert(line_views(v@) =~= opening(wallet@));
    }
    v
}

/// The line on a session that has started.
pub fn connected_line() -> (r: String)
    ensures
        r@ == GREEN@ + "[WS] connected"@ + RESET@,
{
    let mut s = GREEN.to_owned();
    s.append("[WS] connected");
    s.append(RESET);
    s
}

/// What comes in from the stream.
#[derive(Debug)]
pub enum Incoming {
    Text(String),
    Binary(Vec<u8>),
    Ping(Vec<u8>),
    /// The other side closes.
    Close,
    /// There is nothing more to read.
    End,
    /// Reading failed.
    Failed(String),
    Other,
}

/// What a session decides on.
#[derive(Debug)]
pub enum SessionEvent {
    /// It is about to read, while the sniper is shutting down or not.
    Turn { shutdown: bool },
    /// It has read.
    Came(Incoming),
}

/// What a session does next.
#[derive(Debug)]
pub enum SessionStep {
    /// Reads.
    Read,
    /// Acts on what a message says.
    Event(StreamEvent),
    /// Answers a ping with the same data.
    Pong(Vec<u8>),
    /// Ends.
    Finish,
    /// Ends with an error.
    Fail(String),
    Nothing,
}

/// What a session does next.
pub enum SessionStepView {
    Read,
    Event(StreamEventView),
    Pong(Seq<u8>),
    Finish,
    Fail(Seq<char>),
    Nothing,
}

impl View for SessionStep {
    type V = SessionStepView;

    open spec fn view(&self) -> SessionStepView {
        match *self {
            SessionStep::Read => SessionStepView::Read,
            SessionStep::Event(e) => SessionStepView::Event(e@),
            SessionStep::Pong(d) => SessionStepView::Pong(d@),
            SessionStep::Finish => SessionStepView::Finish,
            SessionStep::Fail(e) => SessionStepView::Fail(e@),
            SessionStep::Nothing => SessionStepView::Nothing,
        }
    }
}

/// What a session does about what came in.
pub open spec fn incoming_step(incoming: Incoming) -> SessionStepView {
    match incoming {
        Incoming::Text(s) => SessionStepView::Event(event_of(s@)),
        Incoming::Binary(b) => if valid_utf8(b@) {
            SessionStepView::Event(event_of(decode_utf8(b@)))
        } else {
            SessionStepView::Nothing
        },
        Incoming::Ping(d) => SessionStepView::Pong(d@),
        Incoming::Close | Incoming::End => SessionStepView::Finish,
        Incoming::Failed(e) => SessionStepView::Fail(e@),
        Incoming::Other => SessionStepView::Nothing,
    }
}

/// What a session does next: it reads unless the sniper is shutting down, which
/// ends it, and acts on what it read.
pub open spec fn session_step(event: SessionEvent) -> SessionStepView {
    match event {
        SessionEvent::Turn { shutdown } => if shutdown {
            SessionStepView::Finish
        } else {
            SessionStepView::Read
        },
        SessionEvent::Came(incoming) => incoming_step(incoming),
    }
}

/// What a session does next.
pub fn scanner_session(event: SessionEvent) -> (r: SessionStep)
    ensures
        r@ == session_step(event),
{
    match event {
        SessionEvent::Turn { shutdown } => if shutdown {
            SessionStep::Finish
        } else {
            SessionStep::Read
        },
        SessionEvent::Came(incoming) => match incoming {
            Incoming::Text(s) => SessionStep::Event(handle_ws_message(s.as_str())),
            Incoming::Binary(b) => match utf8_text(b.as_slice()) {
                Some(s) => SessionStep::Event(handle_ws_message(s.as_str())),
                None => SessionStep::Nothing,
            },
            Incoming::Ping(d) => SessionStep::Pong(d),
            Incoming::Close | Incoming::End => SessionStep::Finish,
            Incoming::Failed(e) => SessionStep::Fail(e),
            Incoming::Other => SessionStep::Nothing,
        },
    }
}

/// The line on a session that failed.
pub open spec fn failure_text(error: Seq<char>) -> Seq<char> {
    RED@ + "[WS]"@ + RESET@ + " "@ + error
}

/// Whether another session follows.
pub open spec fn goes_on(shutdown: bool) -> bool {
    !shutdown
}

/// What follows a session: a line to log where it failed, and whether another
/// session is started.
pub fn scanner_loop(error: Option<&str>, shutdown: bool) -> (r: (Option<String>, bool))
    ensures
        match error {
            Some(e) => r.0 matches Some(line) && line@ == failure_text(e@),
            None => r.0 is None,
        },
        r.1 == goes_on(shutdown),
{
    let line = match error {
        Some(e) => {
            let mut s = RED.to_owned();
            s.append("[WS]");
            s.append(RESET);
            s.append(" ");
            s.append(e);
            Some(s)
        },
        None => None,
    };
    (line, !shutdown)
}

/// A session ends without an error exactly on shutdown, when the other side
/// closes, or when there is nothing more to read, and with an error exactly when
/// reading failed.
pub proof fn sessions_end_for_a_reason(event: SessionEvent)
    ensures
        session_step(event) is Finish <==> (event == (SessionEvent::Turn { shutdown: true }) || event
            == SessionEvent::Came(Incoming::Close) || event == SessionEvent::Came(Incoming::End)),
        session_step(event) is Fail <==> event is Came && event->Came_0 is Failed,
        session_step(event) is Read <==> event == (SessionEvent::Turn { shutdown: false }),
{
}

/// Whatever is read is acted on: a text, and bytes that are one, by what it says, a
/// ping by sending its data back, a failure by passing it on. Bytes that are no text
/// and anything else are passed over.
pub proof fn what_is_read_is_acted_on(s: String, b: Vec<u8>)
    ensures
        session_step(SessionEvent::Came(Incoming::Text(s))) == SessionStepView::Event(event_of(s@)),
        valid_utf8(b@) ==> session_step(SessionEvent::Came(Incoming::Binary(b))) == SessionStepView::Event(
            event_of(decode_utf8(b@)),
        ),
        !valid_utf8(b@) ==> session_step(SessionEvent::Came(Incoming::Binary(b))) is Nothing,
        session_step(SessionEvent::Came(Incoming::Ping(b))) == SessionStepView::Pong(b@),
        session_step(SessionEvent::Came(Incoming::Failed(s))) == SessionStepView::Fail(s@),
        session_step(SessionEvent::Came(Incoming::Other)) is Nothing,
{
}

/// A session asks for new tokens, migrations and the trades of the wallet, each in a
/// message of its own, in that order, and for nothing else.
pub proof fn a_session_asks_for_three_streams(wallet: Seq<char>)
    ensures
        opening(wallet).len() == 3,
        opening(wallet)[0] == "{\"method\":\"subscribeNewToken\"}"@,
        opening(wallet)[1] == "{\"method\":\"subscribeMigration\"}"@,
        opening(wallet)[2] == keyed_message("subscribeAccountTrade"@, wallet),
{
}

/// Another session follows unless the sniper is shutting down, however the last one
/// ended, and a failure is shown with its error.
pub proof fn only_a_shutdown_ends_the_sessions(shutdown: bool, error: Seq<char>)
    ensures
        goes_on(shutdown) <==> !shutdown,
        failure_text(error) == RED@ + "[WS]"@ + RESET@ + " "@ + error,
{
}

/// The address of the stream ends in the API key, whatever the key is.
pub proof fn the_stream_is_asked_with_the_key(api_key: Seq<char>)
    ensures
        keyed_url(api_key) == "wss://pumpportal.fun/api/data"@ + "?api-key="@ + api_key,
{
}

} // verus!
