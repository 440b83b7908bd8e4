//! The per-request log record and its extraction from a request's head.

use vstd::prelude::*;

verus! {

/// Nanoseconds in one second.
pub const NANOS_PER_SEC: u32 = 1_000_000_000;

/// A span of time, as whole seconds and the nanoseconds beyond them.
#[derive(Clone, Copy, Debug, PartialEq, Eq, Structural)]
pub struct Elapsed {
    pub secs: u64,
    pub nanos: u32,
}

impl Elapsed {
    /// The nanoseconds part stays below one second.
    pub open spec fn wf(self) -> bool {
        self.nanos < NANOS_PER_SEC
    }

    /// The span in nanoseconds.
    pub open spec fn total_nanos(self) -> int {
        self.secs * 1_000_000_000 + self.nanos
    }

    pub fn zero() -> (r: Elapsed)
        ensures
            r.wf(),
            r.total_nanos() == 0,
    {
        Elapsed { secs: 0, nanos: 0 }
    }

    pub fn new(secs: u64, nanos: u32) -> (r: Elapsed)
        requires
            nanos < NANOS_PER_SEC,
        ensures
            r.wf(),
            r.secs == secs,
            r.nanos == nanos,
    {
        Elapsed { secs, nanos }
    }
}

/// The network address of a request's peer.
#[derive(Clone, Copy, Debug, PartialEq, Eq)]
pub enum PeerAddr {
    V4 { octets: [u8; 4], port: u16 },
    V6 { segments: [u16; 8], port: u16, flowinfo: u32, scope_id: u32 },
}

/// What the transport and the request line tell about one request, as plain
/// values: the raw bytes of the three observed headers, when present.
#[derive(Clone, Debug)]
pub struct RequestHead {
    pub remote_addr: Option<PeerAddr>,
    pub method: String,
    pub path: String,
    pub referer: Option<Vec<u8>>,
    pub user_agent: Option<Vec<u8>>,
    pub forwarded: Option<Vec<u8>>,
}

/// One request's structured log record.
#[derive(Clone, Debug, PartialEq, Eq)]
pub struct HttpRequestLog {
    pub remote_addr: Option<PeerAddr>,
    pub method: String,
    pub path: String,
    /// Zero until the outcome is known.
    pub status: u16,
    pub referer: Option<String>,
    pub user_agent: Option<String>,
    /// Zero until the handler has returned.
    pub elapsed: Elapsed,
    pub forwarded: Option<String>,
}

/// The record as mathematical values.
pub struct LogView {
    pub remote_addr: Option<PeerAddr>,
    pub method: Seq<char>,
    pub path: Seq<char>,
    pub status: u16,
    pub referer: Option<Seq<char>>,
    pub user_agent: Option<Seq<char>>,
    pub elapsed: Elapsed,
    pub forwarded: Option<Seq<char>>,
}

impl View for HttpRequestLog {
    type V = LogView;

    open spec fn view(&self) -> LogView {
        LogView {
            remote_addr: self.remote_addr,
            method: self.method@,
            path: self.path@,
            status: self.status,
            referer: opt_text(self.referer),
            user_agent: opt_text(self.user_agent),
            elapsed: self.elapsed,
            forwarded: opt_text(self.forwarded),
        }
    }
}

impl HttpRequestLog {
    /// Status and elapsed time are both still unset.
    pub open spec fn is_pending(self) -> bool {
        self.status == 0 && self.elapsed.secs == 0 && self.elapsed.nanos == 0
    }

    /// Captures what a request's head tells, before the handler runs: the
    /// peer address, method and path as received, and each observed header
    /// as text, absent when missing or not readable as text.
    pub fn from_head(head: &RequestHead) -> (r: HttpRequestLog)
        ensures
            r@ == log_of(*head),
            r.is_pending(),
            r.elapsed.wf(),
    {
        HttpRequestLog {
            remote_addr: head.remote_addr,
            method: head.method.clone(),
            path: head.path.clone(),
            status: 0,
            referer: header_text(&head.referer),
            user_agent: header_text(&head.user_agent),
            elapsed: Elapsed::zero(),
            forwarded: header_text(&head.forwarded),
        }
    }
}

/// The record that a request head yields before its outcome is known.
pub open spec fn log_of(head: RequestHead) -> LogView {
    LogView {
        remote_addr: head.remote_addr,
        method: head.method@,
        path: head.path@,
        status: 0,
        referer: header_text_of(opt_bytes(head.referer)),
        user_agent: header_text_of(opt_bytes(head.user_agent)),
        elapsed: Elapsed { secs: 0, nanos: 0 },
        forwarded: header_text_of(opt_bytes(head.forwarded)),
    }
}

/// Two request heads that hold the same values, and in particular one head
/// read twice, yield identical records: extraction is a function of the
/// request alone.
pub proof fn lemma_extraction_is_pure(a: RequestHead, b: RequestHead)
    requires
        a.remote_addr == b.remote_addr,
        a.method@ == b.method@,
        a.path@ == b.path@,
        opt_bytes(a.referer) == opt_bytes(b.referer),
        opt_bytes(a.user_agent) == opt_bytes(b.user_agent),
        opt_bytes(a.forwarded) == opt_bytes(b.forwarded),
    ensures
        log_of(a) == log_of(b),
{
}

/// A byte that a header value may hold and still read as text: visible ASCII
/// or a horizontal tab.
pub open spec fn is_visible_ascii(b: u8) -> bool {
    (32 <= b && b < 127) || b == 9
}

/// The characters that a sequence of ASCII bytes spells.
pub open spec fn ascii_chars(b: Seq<u8>) -> Seq<char> {
    b.map_values(|x: u8| x as char)
}

/// The text of a header value: present exactly when the header is present and
/// every byte of it is visible ASCII.
pub open spec fn header_text_of(raw: Option<Seq<u8>>) -> Option<Seq<char>> {
    match raw {
        Some(b) => if forall|i: int| 0 <= i < b.len() ==> is_visible_ascii(#[trigger] b[i]) {
            Some(ascii_chars(b))
        } else {
            None
        },
        None => None,
    }
}

pub open spec fn opt_bytes(raw: Option<Vec<u8>>) -> Option<Seq<u8>> {
    match raw {
        Some(v) => Some(v@),
        None => None,
    }
}

pub open spec fn opt_text(s: Option<String>) -> Option<Seq<char>> {
    match s {
        Some(t) => Some(t@),
        None => None,
    }
}

/// Relies on `String::from_utf8`: ASCII bytes are valid UTF-8, and each of
/// them becomes the character of the same code.
#[verifier::external_body]
pub(crate) fn ascii_string(bytes: &Vec<u8>) -> (r: String)
    requires
        forall|i: int| 0 <= i < bytes@.len() ==> #[trigger] bytes@[i] < 128,
    ensures
        r@ == ascii_chars(bytes@),
{
    String::from_utf8(bytes.clone()).unwrap_or_default()
}

/// Reads a header value as text; a value holding any byte that is not
/// visible ASCII reads as absent.
pub fn header_text(raw: &Option<Vec<u8>>) -> (r: Option<String>)
    ensures
        opt_text(r) == header_text_of(opt_bytes(*raw)),
{
    match raw {
        None => None,
        Some(b) => {
            let mut i: usize = 0;
            while i < b.len()
                invariant
                    0 <= i <= b@.len(),
                    opt_bytes(*raw) == Some(b@),
                    forall|j: int| 0 <= j < i ==> is_visible_ascii(#[trigger] b@[j]),
                decreases b@.len() - i,
            {
                let c = b[i];
                if !((32 <= c && c < 127) || c == 9) {
                    assert(!is_visible_ascii(b@[i as int]));
                    return None;
                }
                i = i + 1;
            }
            Some(ascii_string(b))
        },
    }
}

} // verus!
