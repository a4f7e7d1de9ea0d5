//! The wire format.
//!
//! Client-to-server text frames carry one JSON object naming the trace the
//! session wants to be told about:
//!
//! * `{"trace_id":"T","type":"search","query":V}` — a search declaration;
//!   `V` is an arbitrary JSON value, kept verbatim as the pending query;
//! * `{"trace_id":"T","type":"TAG"}` — any other declaration.
//!
//! The recognizer is deliberately strict: it accepts exactly the canonical
//! compact form above — the fields in that order, no whitespace between
//! tokens, identifier strings without quotes or backslashes — which is what
//! a machine-written declaration looks like. JSON's insignificant whitespace
//! and other member orders are not recognized; like every other unrecognized
//! frame they are dropped by the dispatch step with the connection left open
//! and no table changed, the safe failure direction. Keeping the grammar
//! canonical keeps it, and the proof that the parser decides it exactly,
//! small enough to read.
//!
//! Server-to-client text frames carry one serialized event:
//! `{"user_id":"U","trace_id":"T","payload":P}`, where an enqueued payload
//! is `{"type":"QueryEnqueued"}`, or, merged with a cached query `V`,
//! `{"type":"QueryEnqueued","query":V}`, and any other payload is carried
//! verbatim.

use vstd::prelude::*;

use crate::bytes::{append_bytes, bytes_eq};

verus! {

// Byte values: 34 `"`, 44 `,`, 58 `:`, 91 `[`, 92 `\`, 93 `]`, 123 `{`, 125 `}`.
/// `{"trace_id":"`
pub open spec fn lit_msg_prefix() -> Seq<u8> {
    seq![123u8, 34, 116, 114, 97, 99, 101, 95, 105, 100, 34, 58, 34]
}

/// `","type":"`
pub open spec fn lit_type_mid() -> Seq<u8> {
    seq![34u8, 44, 34, 116, 121, 112, 101, 34, 58, 34]
}

/// `"}`
pub open spec fn lit_obj_end() -> Seq<u8> {
    seq![34u8, 125]
}

/// `","query":`
pub open spec fn lit_query_mid() -> Seq<u8> {
    seq![34u8, 44, 34, 113, 117, 101, 114, 121, 34, 58]
}

/// `search`
pub open spec fn lit_search() -> Seq<u8> {
    seq![115u8, 101, 97, 114, 99, 104]
}

/// `{"user_id":"`
pub open spec fn lit_event_user() -> Seq<u8> {
    seq![123u8, 34, 117, 115, 101, 114, 95, 105, 100, 34, 58, 34]
}

/// `","trace_id":"`
pub open spec fn lit_event_trace() -> Seq<u8> {
    seq![34u8, 44, 34, 116, 114, 97, 99, 101, 95, 105, 100, 34, 58, 34]
}

/// `","payload":`
pub open spec fn lit_event_payload() -> Seq<u8> {
    seq![34u8, 44, 34, 112, 97, 121, 108, 111, 97, 100, 34, 58]
}

/// `{"type":"QueryEnqueued"}`
pub open spec fn lit_enqueued_bare() -> Seq<u8> {
    seq![123u8, 34, 116, 121, 112, 101, 34, 58, 34, 81, 117, 101, 114, 121, 69, 110, 113, 117, 101, 117, 101, 100, 34, 125]
}

/// `{"type":"QueryEnqueued","query":`
pub open spec fn lit_enqueued_open() -> Seq<u8> {
    seq![123u8, 34, 116, 121, 112, 101, 34, 58, 34, 81, 117, 101, 114, 121, 69, 110, 113, 117, 101, 117, 101, 100, 34, 44, 34, 113, 117, 101, 114, 121, 34, 58]
}

/// `{"trace_id":"`
pub fn msg_prefix() -> (v: Vec<u8>)
    ensures
        v@ == lit_msg_prefix(),
{
    let mut v: Vec<u8> = Vec::new();
    v.push(123); v.push(34); v.push(116); v.push(114); v.push(97); v.push(99); v.push(101);
    v.push(95); v.push(105); v.push(100); v.push(34); v.push(58); v.push(34);
    proof {
        assert(v@ =~= lit_msg_prefix());
    }
    v
}

/// `","type":"`
pub fn type_mid() -> (v: Vec<u8>)
    ensures
        v@ == lit_type_mid(),
{
    let mut v: Vec<u8> = Vec::new();
    v.push(34); v.push(44); v.push(34); v.push(116); v.push(121); v.push(112); v.push(101);
    v.push(34); v.push(58); v.push(34);
    proof {
        assert(v@ =~= lit_type_mid());
    }
    v
}

/// `"}`
pub fn obj_end() -> (v: Vec<u8>)
    ensures
        v@ == lit_obj_end(),
{
    let mut v: Vec<u8> = Vec::new();
    v.push(34); v.push(125);
    proof {
        assert(v@ =~= lit_obj_end());
    }
    v
}

/// `","query":`
pub fn query_mid() -> (v: Vec<u8>)
    ensures
        v@ == lit_query_mid(),
{
    let mut v: Vec<u8> = Vec::new();
    v.push(34); v.push(44); v.push(34); v.push(113); v.push(117); v.push(101); v.push(114);
    v.push(121); v.push(34); v.push(58);
    proof {
        assert(v@ =~= lit_query_mid());
    }
    v
}

/// `search`
pub fn search_tag() -> (v: Vec<u8>)
    ensures
        v@ == lit_search(),
{
    let mut v: Vec<u8> = Vec::new();
    v.push(115); v.push(101); v.push(97); v.push(114); v.push(99); v.push(104);
    proof {
        assert(v@ =~= lit_search());
    }
    v
}

/// `{"user_id":"`
pub fn event_user() -> (v: Vec<u8>)
    ensures
        v@ == lit_event_user(),
{
    let mut v: Vec<u8> = Vec::new();
    v.push(123); v.push(34); v.push(117); v.push(115); v.push(101); v.push(114); v.push(95);
    v.push(105); v.push(100); v.push(34); v.push(58); v.push(34);
    proof {
        assert(v@ =~= lit_event_user());
    }
    v
}

/// `","trace_id":"`
pub fn event_trace() -> (v: Vec<u8>)
    ensures
        v@ == lit_event_trace(),
{
    let mut v: Vec<u8> = Vec::new();
    v.push(34); v.push(44); v.push(34); v.push(116); v.push(114); v.push(97); v.push(99);
    v.push(101); v.push(95); v.push(105); v.push(100); v.push(34); v.push(58); v.push(34);
    proof {
        assert(v@ =~= lit_event_trace());
    }
    v
}

/// `","payload":`
pub fn event_payload_mid() -> (v: Vec<u8>)
    ensures
        v@ == lit_event_payload(),
{
    let mut v: Vec<u8> = Vec::new();
    v.push(34); v.push(44); v.push(34); v.push(112); v.push(97); v.push(121); v.push(108);
    v.push(111); v.push(97); v.push(100); v.push(34); v.push(58);
    proof {
        assert(v@ =~= lit_event_payload());
    }
    v
}

/// `{"type":"QueryEnqueued"}`
pub fn enqueued_bare() -> (v: Vec<u8>)
    ensures
        v@ == lit_enqueued_bare(),
{
    let mut v: Vec<u8> = Vec::new();
    v.push(123); v.push(34); v.push(116); v.push(121); v.push(112); v.push(101); v.push(34);
    v.push(58); v.push(34); v.push(81); v.push(117); v.push(101); v.push(114); v.push(121);
    v.push(69); v.push(110); v.push(113); v.push(117); v.push(101); v.push(117); v.push(101);
    v.push(100); v.push(34); v.push(125);
    proof {
        assert(v@ =~= lit_enqueued_bare());
    }
    v
}

/// `{"type":"QueryEnqueued","query":`
pub fn enqueued_open() -> (v: Vec<u8>)
    ensures
        v@ == lit_enqueued_open(),
{
    let mut v: Vec<u8> = Vec::new();
    v.push(123); v.push(34); v.push(116); v.push(121); v.push(112); v.push(101); v.push(34);
    v.push(58); v.push(34); v.push(81); v.push(117); v.push(101); v.push(114); v.push(121);
    v.push(69); v.push(110); v.push(113); v.push(117); v.push(101); v.push(117); v.push(101);
    v.push(100); v.push(34); v.push(44); v.push(34); v.push(113); v.push(117); v.push(101);
    v.push(114); v.push(121); v.push(34); v.push(58);
    proof {
        assert(v@ =~= lit_enqueued_open());
    }
    v
}

/// The pattern stands in `s` at position `i`.
pub open spec fn has_at(s: Seq<u8>, i: int, pat: Seq<u8>) -> bool {
    0 <= i && i + pat.len() <= s.len() && s.subrange(i, i + pat.len()) == pat
}

/// Decides `has_at` for byte strings.
pub fn match_at(s: &Vec<u8>, i: usize, pat: &Vec<u8>) -> (r: bool)
    ensures
        r == has_at(s@, i as int, pat@),
{
    if pat.len() > s.len() || i > s.len() - pat.len() {
        return false;
    }
    let n: usize = s.len();
    let mut j: usize = 0;
    while j < pat.len()
        invariant
            i + pat@.len() <= s@.len(),
            n == s@.len(),
            0 <= j <= pat@.len(),
            forall|t: int| 0 <= t < j ==> s@[i + t] == pat@[t],
        decreases pat@.len() - j,
    {
        if s[i + j] != pat[j] {
            proof {
                if has_at(s@, i as int, pat@) {
                    assert(s@.subrange(i as int, i + pat@.len())[j as int] == pat@[j as int]);
                }
            }
            return false;
        }
        j += 1;
    }
    proof {
        assert(s@.subrange(i as int, i + pat@.len()) =~= pat@);
    }
    true
}

/// Copies `s[a..b]`.
pub fn copy_range(s: &Vec<u8>, a: usize, b: usize) -> (r: Vec<u8>)
    requires
        a <= b <= s@.len(),
    ensures
        r@ == s@.subrange(a as int, b as int),
{
    let mut r: Vec<u8> = Vec::new();
    let mut j: usize = a;
    while j < b
        invariant
            a <= j <= b <= s@.len(),
            r@ == s@.subrange(a as int, j as int),
        decreases b - j,
    {
        r.push(s[j]);
        proof {
            assert(r@ =~= s@.subrange(a as int, j as int + 1));
        }
        j += 1;
    }
    r
}

/// A byte an identifier string may hold: anything but a quote or a backslash.
pub open spec fn is_plain_byte(b: u8) -> bool {
    b != 34 && b != 92
}

/// The position of the closing quote of a plain string whose contents start
/// at `i`, if the string holds only plain bytes.
pub open spec fn scan_plain_string(s: Seq<u8>, i: int) -> Option<int>
    decreases s.len() - i,
{
    if i >= s.len() {
        None
    } else if s[i] == 34 {
        Some(i)
    } else if is_plain_byte(s[i]) {
        scan_plain_string(s, i + 1)
    } else {
        None
    }
}

/// Finds the closing quote of a plain string.
pub fn scan_plain(s: &Vec<u8>, i: usize) -> (r: Option<usize>)
    ensures
        match r {
            Some(j) => scan_plain_string(s@, i as int) == Some(j as int) && i <= j < s@.len(),
            None => scan_plain_string(s@, i as int) is None,
        },
{
    if i >= s.len() {
        return None;
    }
    let mut j: usize = i;
    while j < s.len()
        invariant
            i <= j <= s@.len(),
            scan_plain_string(s@, i as int) == scan_plain_string(s@, j as int),
        decreases s@.len() - j,
    {
        let b = s[j];
        if b == 34 {
            proof {
                assert(scan_plain_string(s@, j as int) == Some(j as int));
            }
            return Some(j);
        }
        if b == 92 {
            proof {
                assert(scan_plain_string(s@, j as int) is None);
            }
            return None;
        }
        proof {
            assert(scan_plain_string(s@, j as int) == scan_plain_string(s@, j as int + 1));
        }
        j += 1;
    }
    proof {
        assert(scan_plain_string(s@, j as int) is None);
    }
    None
}

/// The position of the first byte after a balanced raw JSON value starting at
/// `i`, which must be the `}` that closes the enclosing object. Brackets and
/// braces nest; quotes open strings, inside which a backslash escapes the
/// next byte; a comma at nesting depth zero means another field follows and
/// is rejected, since the query is the object's final field.
pub open spec fn scan_raw_value(s: Seq<u8>, i: int, depth: int, in_str: bool, esc: bool) -> Option<
    int,
>
    decreases s.len() - i,
{
    if i >= s.len() {
        None
    } else if in_str {
        if esc {
            scan_raw_value(s, i + 1, depth, true, false)
        } else if s[i] == 92 {
            scan_raw_value(s, i + 1, depth, true, true)
        } else if s[i] == 34 {
            scan_raw_value(s, i + 1, depth, false, false)
        } else {
            scan_raw_value(s, i + 1, depth, true, false)
        }
    } else if s[i] == 34 {
        scan_raw_value(s, i + 1, depth, true, false)
    } else if s[i] == 123 || s[i] == 91 {
        scan_raw_value(s, i + 1, depth + 1, false, false)
    } else if s[i] == 125 || s[i] == 93 {
        if depth == 0 {
            if s[i] == 125 {
                Some(i)
            } else {
                None
            }
        } else {
            scan_raw_value(s, i + 1, depth - 1, false, false)
        }
    } else if s[i] == 44 && depth == 0 {
        None
    } else {
        scan_raw_value(s, i + 1, depth, false, false)
    }
}

/// Finds the end of a balanced raw JSON value starting at `i`.
pub fn scan_raw(s: &Vec<u8>, i: usize) -> (r: Option<usize>)
    ensures
        match r {
            Some(j) => scan_raw_value(s@, i as int, 0, false, false) == Some(j as int) && i <= j
                < s@.len(),
            None => scan_raw_value(s@, i as int, 0, false, false) is None,
        },
{
    if i >= s.len() {
        return None;
    }
    let mut j: usize = i;
    let mut depth: usize = 0;
    let mut in_str: bool = false;
    let mut esc: bool = false;
    while j < s.len()
        invariant
            i <= j <= s@.len(),
            depth <= j,
            esc ==> in_str,
            scan_raw_value(s@, i as int, 0, false, false) == scan_raw_value(
                s@,
                j as int,
                depth as int,
                in_str,
                esc,
            ),
        decreases s@.len() - j,
    {
        let b = s[j];
        if in_str {
            if esc {
                esc = false;
            } else if b == 92 {
                esc = true;
            } else if b == 34 {
                in_str = false;
            }
            j += 1;
        } else {
            if b == 34 {
                in_str = true;
                j += 1;
            } else if b == 123 || b == 91 {
                depth = depth + 1;
                j += 1;
            } else if b == 125 || b == 93 {
                if depth == 0 {
                    if b == 125 {
                        return Some(j);
                    } else {
                        return None;
                    }
                } else {
                    depth = depth - 1;
                    j += 1;
                }
            } else if b == 44 && depth == 0 {
                return None;
            } else {
                j += 1;
            }
        }
    }
    None
}

/// A recognized client declaration, as the grammar reads it.
pub struct ParsedClientMessage {
    pub trace_id: Seq<u8>,
    pub query: Option<Seq<u8>>,
}

/// Parses a client text frame. `None` is an unrecognized frame; a recognized
/// one names its trace id and, for a search declaration, the raw query value.
/// Only the canonical compact form is recognized (see the module doc); an
/// equivalent object written with whitespace or another member order is
/// dropped, not misread.
pub open spec fn parse_client_message(s: Seq<u8>) -> Option<ParsedClientMessage> {
    if !has_at(s, 0, lit_msg_prefix()) {
        None
    } else {
        let i0: int = lit_msg_prefix().len() as int;
        match scan_plain_string(s, i0) {
            None => None,
            Some(j1) => {
                let tid: Seq<u8> = s.subrange(i0, j1);
                if !has_at(s, j1, lit_type_mid()) {
                    None
                } else {
                    let i2: int = j1 + lit_type_mid().len();
                    match scan_plain_string(s, i2) {
                        None => None,
                        Some(j2) => {
                            let tag: Seq<u8> = s.subrange(i2, j2);
                            if has_at(s, j2, lit_obj_end()) && j2 + 2 == s.len() {
                                if tag == lit_search() {
                                    None
                                } else {
                                    Some(ParsedClientMessage { trace_id: tid, query: None })
                                }
                            } else if has_at(s, j2, lit_query_mid()) {
                                let q0: int = j2 + lit_query_mid().len();
                                match scan_raw_value(s, q0, 0, false, false) {
                                    None => None,
                                    Some(e) => {
                                        if e + 1 == s.len() && q0 < e && tag == lit_search() {
                                            Some(
                                                ParsedClientMessage {
                                                    trace_id: tid,
                                                    query: Some(s.subrange(q0, e)),
                                                },
                                            )
                                        } else {
                                            None
                                        }
                                    },
                                }
                            } else {
                                None
                            }
                        },
                    }
                }
            },
        }
    }
}

/// What a recognized client declaration asks for.
#[derive(Debug, PartialEq)]
pub enum MessageKind {
    /// A search declaration: the raw query value to cache for the trace.
    Search { query: Vec<u8> },
    /// Any other declaration: only the trace registration.
    Other,
}

/// A recognized client declaration.
#[derive(Debug, PartialEq)]
pub struct ClientMessage {
    pub trace_id: Vec<u8>,
    pub kind: MessageKind,
}

/// The parsed reading of a client message value.
pub open spec fn client_message_view(m: ClientMessage) -> ParsedClientMessage {
    ParsedClientMessage {
        trace_id: m.trace_id@,
        query: match m.kind {
            MessageKind::Search { query } => Some(query@),
            MessageKind::Other => None,
        },
    }
}

/// Parses a client text frame, exactly as `parse_client_message` reads it.
pub fn parse_client(s: &Vec<u8>) -> (r: Option<ClientMessage>)
    ensures
        match r {
            Some(m) => parse_client_message(s@) == Some(client_message_view(m)),
            None => parse_client_message(s@) is None,
        },
{
    let n: usize = s.len();
    let prefix = msg_prefix();
    if !match_at(s, 0, &prefix) {
        return None;
    }
    let i0: usize = prefix.len();
    let j1: usize = match scan_plain(s, i0) {
        Some(j) => j,
        None => {
            return None;
        },
    };
    let tid = copy_range(s, i0, j1);
    let tmid = type_mid();
    if !match_at(s, j1, &tmid) {
        return None;
    }
    let i2: usize = j1 + tmid.len();
    let j2: usize = match scan_plain(s, i2) {
        Some(j) => j,
        None => {
            return None;
        },
    };
    let tag = copy_range(s, i2, j2);
    let oend = obj_end();
    let srch = search_tag();
    if match_at(s, j2, &oend) && n >= 2 && j2 == n - 2 {
        if bytes_eq(&tag, &srch) {
            return None;
        }
        return Some(ClientMessage { trace_id: tid, kind: MessageKind::Other });
    }
    let qmid = query_mid();
    if !match_at(s, j2, &qmid) {
        return None;
    }
    let q0: usize = j2 + qmid.len();
    let e: usize = match scan_raw(s, q0) {
        Some(e) => e,
        None => {
            return None;
        },
    };
    if n >= 1 && e == n - 1 && q0 < e && bytes_eq(&tag, &srch) {
        let q = copy_range(s, q0, e);
        return Some(ClientMessage { trace_id: tid, kind: MessageKind::Search { query: q } });
    }
    None
}

/// The tagged payload of a bus event.
#[derive(Clone, Debug, PartialEq)]
pub enum EventPayload {
    /// The query for the trace was enqueued; after a merge the cached raw
    /// query value rides along.
    QueryEnqueued { query: Option<Vec<u8>> },
    /// Any other result: a raw JSON value delivered as it stands.
    Raw { body: Vec<u8> },
}

/// A bus event: an asynchronously produced result addressed by trace id.
#[derive(Clone, Debug, PartialEq)]
pub struct Event {
    pub user_id: Vec<u8>,
    pub trace_id: Vec<u8>,
    pub payload: EventPayload,
}

/// The serialized form of an enqueued payload, bare or with its query.
pub open spec fn enqueued_payload_json(q: Option<Seq<u8>>) -> Seq<u8> {
    match q {
        None => lit_enqueued_bare(),
        Some(qs) => lit_enqueued_open() + qs + seq![125u8],
    }
}

/// The serialized form of a payload.
pub open spec fn payload_json(p: EventPayload) -> Seq<u8> {
    match p {
        EventPayload::QueryEnqueued { query } => enqueued_payload_json(
            match query {
                Some(v) => Some(v@),
                None => None,
            },
        ),
        EventPayload::Raw { body } => body@,
    }
}

/// The payload as delivered: an enqueued payload picks up the cached query
/// when there is one; everything else goes out unmodified.
pub open spec fn merged_payload_json(p: EventPayload, cached: Option<Seq<u8>>) -> Seq<u8> {
    match p {
        EventPayload::QueryEnqueued { .. } => match cached {
            Some(q) => enqueued_payload_json(Some(q)),
            None => payload_json(p),
        },
        EventPayload::Raw { .. } => payload_json(p),
    }
}

/// The serialized form of an event, its payload merged with a cached query.
pub open spec fn merged_event_json(e: Event, cached: Option<Seq<u8>>) -> Seq<u8> {
    lit_event_user() + e.user_id@ + lit_event_trace() + e.trace_id@ + lit_event_payload()
        + merged_payload_json(e.payload, cached) + seq![125u8]
}

/// The serialized form of an event as it stands.
pub open spec fn event_json(e: Event) -> Seq<u8> {
    merged_event_json(e, None)
}

/// Serializes an event for delivery, merging in a cached query if one is
/// handed over.
pub fn serialize_delivery(e: &Event, cached: Option<Vec<u8>>) -> (r: Vec<u8>)
    ensures
        r@ == merged_event_json(
            *e,
            match cached {
                Some(q) => Some(q@),
                None => None,
            },
        ),
{
    let mut out: Vec<u8> = Vec::new();
    let head = event_user();
    append_bytes(&mut out, &head);
    append_bytes(&mut out, &e.user_id);
    let mid = event_trace();
    append_bytes(&mut out, &mid);
    append_bytes(&mut out, &e.trace_id);
    let pmid = event_payload_mid();
    append_bytes(&mut out, &pmid);
    let merge: Option<&Vec<u8>> = match &e.payload {
        EventPayload::QueryEnqueued { query } => match &cached {
            Some(q) => Some(q),
            None => match query {
                Some(v) => Some(v),
                None => None,
            },
        },
        EventPayload::Raw { .. } => None,
    };
    match &e.payload {
        EventPayload::QueryEnqueued { .. } => match merge {
            Some(q) => {
                let open = enqueued_open();
                append_bytes(&mut out, &open);
                append_bytes(&mut out, &q);
                out.push(125);
            },
            None => {
                let bare = enqueued_bare();
                append_bytes(&mut out, &bare);
            },
        },
        EventPayload::Raw { body } => {
            append_bytes(&mut out, body);
        },
    }
    out.push(125);
    proof {
        assert(out@ =~= merged_event_json(
            *e,
            match cached {
                Some(q) => Some(q@),
                None => None,
            },
        ));
    }
    out
}

/// Serializes an event with no cached query.
pub fn event_to_json(e: &Event) -> (r: Vec<u8>)
    ensures
        r@ == event_json(*e),
{
    serialize_delivery(e, None)
}

} // verus!
