use vstd::prelude::*;
use crate::chars::{owned, string_of};

verus! {

/// A request from another process to the running orchestrator.
#[derive(Debug, Clone, PartialEq, Eq)]
pub enum Request {
    /// Liveness probe.
    Ping,
    /// Fetch page `page` (of `page_size` messages) now and cache it.
    SyncPage { page: u32, page_size: u32 },
}

/// The orchestrator's answer to one request.
#[derive(Debug, Clone, PartialEq, Eq)]
pub struct Response {
    pub ok: bool,
    pub message: Option<String>,
}

/// What the orchestrator does with a request.
#[derive(Debug)]
pub enum RequestAction {
    /// Answer at once with this response.
    Reply(Response),
    /// Synchronize this page, then answer with [`sync_page_response`].
    SyncPage { page: u32, page_size: u32 },
}

/// Why an on-demand page synchronization failed, with the cause's text.
#[derive(Debug)]
pub enum SyncFailure {
    /// No access token could be had.
    Token(String),
    /// The mailbox server could not be reached or read.
    Fetch(String),
    /// The cache could not be written.
    Store(String),
}

/// `resp` carries the status `ok` and the message `text`.
pub open spec fn says(resp: Response, ok: bool, text: Seq<char>) -> bool {
    resp.ok == ok && match resp.message {
        Some(m) => m@ == text,
        None => false,
    }
}

/// Decimal digit `d` as a character.
pub open spec fn digit_char(d: nat) -> char {
    seq!['0', '1', '2', '3', '4', '5', '6', '7', '8', '9'][d as int]
}

/// Decimal representation of `n`, without leading zeros.
pub open spec fn decimal(n: nat) -> Seq<char>
    decreases n,
{
    if n < 10 {
        seq![digit_char(n)]
    } else {
        decimal(n / 10).push(digit_char(n % 10))
    }
}

fn push_decimal(out: &mut Vec<char>, n: u32)
    ensures
        final(out)@ == old(out)@ + decimal(n as nat),
    decreases n,
{
    if n >= 10 {
        push_decimal(out, n / 10);
    }
    let d = n % 10;
    let c = if d == 0 {
        '0'
    } else if d == 1 {
        '1'
    } else if d == 2 {
        '2'
    } else if d == 3 {
        '3'
    } else if d == 4 {
        '4'
    } else if d == 5 {
        '5'
    } else if d == 6 {
        '6'
    } else if d == 7 {
        '7'
    } else if d == 8 {
        '8'
    } else {
        '9'
    };
    out.push(c);
    assert(c == digit_char(d as nat));
    assert(final(out)@ =~= old(out)@ + decimal(n as nat));
}

/// Decimal text of `n`.
pub fn decimal_string(n: u32) -> (r: String)
    ensures
        r@ == decimal(n as nat),
{
    let mut v: Vec<char> = Vec::new();
    push_decimal(&mut v, n);
    assert(v@ =~= decimal(n as nat));
    string_of(&v)
}

/// Decides how to serve `req`: a ping is answered with `pong` at once; a page
/// synchronization is work for the orchestrator.
pub fn handle_request(req: &Request) -> (r: RequestAction)
    ensures
        match (req, r) {
            (Request::Ping, RequestAction::Reply(resp)) => says(resp, true, "pong"@),
            (
                Request::SyncPage { page, page_size },
                RequestAction::SyncPage { page: p, page_size: s },
            ) => p == page && s == page_size,
            _ => false,
        },
{
    match req {
        Request::Ping => RequestAction::Reply(Response { ok: true, message: Some(owned("pong")) }),
        Request::SyncPage { page, page_size } => RequestAction::SyncPage {
            page: *page,
            page_size: *page_size,
        },
    }
}

/// The answer a client gets where the control socket is not available on
/// the platform.
pub fn platform_unsupported() -> (r: Response)
    ensures
        says(r, false, "IPC not supported on this platform"@),
{
    Response { ok: false, message: Some(owned("IPC not supported on this platform")) }
}

/// The answer to a request that could not be read.
pub fn bad_request() -> (r: Response)
    ensures
        says(r, false, "bad request"@),
{
    Response { ok: false, message: Some(owned("bad request")) }
}

/// The answer to a page synchronization, from its outcome.
pub fn sync_page_response(page: u32, outcome: Result<(), SyncFailure>) -> (r: Response)
    ensures
        match outcome {
            Ok(_) => says(r, true, "synced page "@ + decimal(page as nat)),
            Err(SyncFailure::Token(e)) => says(r, false, "token error: "@ + e@),
            Err(SyncFailure::Fetch(e)) => says(r, false, "imap error: "@ + e@),
            Err(SyncFailure::Store(e)) => says(r, false, "store error: "@ + e@),
        },
{
    match outcome {
        Ok(()) => {
            let mut m = owned("synced page ");
            let digits = decimal_string(page);
            m.append(digits.as_str());
            Response { ok: true, message: Some(m) }
        },
        Err(SyncFailure::Token(e)) => {
            let mut m = owned("token error: ");
            m.append(e.as_str());
            Response { ok: false, message: Some(m) }
        },
        Err(SyncFailure::Fetch(e)) => {
            let mut m = owned("imap error: ");
            m.append(e.as_str());
            Response { ok: false, message: Some(m) }
        },
        Err(SyncFailure::Store(e)) => {
            let mut m = owned("store error: ");
            m.append(e.as_str());
            Response { ok: false, message: Some(m) }
        },
    }
}

} // verus!
