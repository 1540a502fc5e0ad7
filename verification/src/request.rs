//! Ping request representation: a validated, compression-aware assembler
//! of outbound upload requests, plus its header formatting.
//!
//! Compression and JSON re-serialization are performed by outside code
//! behind a few trusted wrappers; everything that decides what goes into a
//! request is verified here.

use crate::text::{
    opt_string_view, spec_decimal, spec_four_digits, spec_two_digits, four_digits, two_digits,
    u64_to_decimal,
};
use crate::time::{spec_weekday, Datetime};
use std::io::Read;
use std::io::Write;
use vstd::prelude::*;
use vstd::string::StrSliceExecFns;
use vstd::string::StringSliceAdditionalSpecFns;
use vstd::string::StringExecFns;

verus! {

/// A recoverable error from assembling a ping request.
#[derive(Clone, Copy, PartialEq, Eq, Structural, Debug)]
pub enum ErrorKind {
    /// The final ping body exceeded the configured maximum size; carries
    /// the offending size in bytes.
    PingBodyOverflow(usize),
}

/// One request header: a name and its value.
#[derive(Clone, Debug)]
pub struct Header {
    pub name: String,
    pub value: String,
}

/// Request headers: a map from header names to values, with unique names.
#[derive(Clone, Debug)]
pub struct HeaderMap {
    entries: Vec<Header>,
}

/// The value stored under `name` in a run of headers, scanning from the
/// most recently added entry.
pub open spec fn spec_headers_get(s: Seq<Header>, name: Seq<char>) -> Option<Seq<char>>
    decreases s.len(),
{
    if s.len() == 0 {
        None
    } else if s.last().name@ == name {
        Some(s.last().value@)
    } else {
        spec_headers_get(s.drop_last(), name)
    }
}

proof fn lemma_headers_get_present(s: Seq<Header>, k: Seq<char>)
    ensures
        (spec_headers_get(s, k) is Some) <==> (exists|i: int|
            0 <= i < s.len() && s[i].name@ == k),
    decreases s.len(),
{
    if s.len() > 0 {
        lemma_headers_get_present(s.drop_last(), k);
        if s.last().name@ == k {
            assert(s[s.len() - 1].name@ == k);
        } else {
            if exists|i: int| 0 <= i < s.len() && s[i].name@ == k {
                let i = choose|i: int| 0 <= i < s.len() && s[i].name@ == k;
                assert(s.drop_last()[i].name@ == k);
            }
        }
    }
}

proof fn lemma_headers_get_at(s: Seq<Header>, i: int, k: Seq<char>)
    requires
        0 <= i < s.len(),
        s[i].name@ == k,
        forall|a: int, b: int| 0 <= a < b < s.len() ==> s[a].name@ != s[b].name@,
    ensures
        spec_headers_get(s, k) == Some(s[i].value@),
    decreases s.len(),
{
    if i == s.len() - 1 {
        assert(s.last().name@ == k);
    } else {
        assert(s[i].name@ != s[s.len() - 1].name@);
        assert(forall|a: int, b: int|
            0 <= a < b < s.drop_last().len() ==> s.drop_last()[a].name@
                != s.drop_last()[b].name@);
        lemma_headers_get_at(s.drop_last(), i, k);
    }
}

proof fn lemma_headers_get_remove(s: Seq<Header>, i: int, k: Seq<char>)
    requires
        0 <= i < s.len(),
        s[i].name@ != k,
    ensures
        spec_headers_get(s.remove(i), k) == spec_headers_get(s, k),
    decreases s.len(),
{
    s.remove_ensures(i);
    if i == s.len() - 1 {
        assert(s.remove(i) =~= s.drop_last());
    } else {
        assert(s.remove(i)[s.len() - 2] == s[s.len() - 1]);
        assert(s.remove(i).last() == s.last());
        assert(s.remove(i).drop_last() =~= s.drop_last().remove(i));
        lemma_headers_get_remove(s.drop_last(), i, k);
    }
}

impl HeaderMap {
    /// Header names are pairwise distinct.
    pub closed spec fn wf(self) -> bool {
        forall|a: int, b: int|
            0 <= a < b < self.entries@.len() ==> self.entries@[a].name@ != self.entries@[b].name@
    }

    /// The value stored under `name`, if any.
    pub closed spec fn spec_get(self, name: Seq<char>) -> Option<Seq<char>> {
        spec_headers_get(self.entries@, name)
    }

    /// A value is stored under `name`.
    pub open spec fn spec_contains(self, name: Seq<char>) -> bool {
        self.spec_get(name) is Some
    }

    /// Number of headers held.
    pub closed spec fn spec_len(self) -> nat {
        self.entries@.len()
    }

    /// An empty header map.
    pub fn new() -> (r: HeaderMap)
        ensures
            r.wf(),
            r.spec_len() == 0,
            forall|k: Seq<char>| r.spec_get(k) is None,
    {
        HeaderMap { entries: Vec::new() }
    }

    fn find_index(&self, name: &String) -> (r: Option<usize>)
        ensures
            r matches Some(i) ==> i < self.entries@.len() && self.entries@[i as int].name@
                == name@,
            r is None ==> forall|i: int|
                0 <= i < self.entries@.len() ==> self.entries@[i].name@ != name@,
    {
        let mut i: usize = 0;
        while i < self.entries.len()
            invariant
                i <= self.entries@.len(),
                forall|j: int| 0 <= j < i ==> self.entries@[j].name@ != name@,
            decreases self.entries@.len() - i,
        {
            if self.entries[i].name == *name {
                return Some(i);
            }
            i += 1;
        }
        None
    }

    /// Stores `value` under `name`, replacing any previous value.
    pub fn insert(&mut self, name: String, value: String)
        requires
            old(self).wf(),
        ensures
            final(self).wf(),
            final(self).spec_get(name@) == Some(value@),
            forall|k: Seq<char>| k != name@ ==> final(self).spec_get(k) == old(self).spec_get(k),
    {
        let ghost s0 = self.entries@;
        let ghost nview = name@;
        let ghost vview = value@;
        let found = self.find_index(&name);
        match found {
            Some(i) => {
                self.entries.remove(i);
                proof {
                    s0.remove_ensures(i as int);
                    assert forall|k: Seq<char>| k != nview implies spec_headers_get(
                        self.entries@,
                        k,
                    ) == spec_headers_get(s0, k) by {
                        lemma_headers_get_remove(s0, i as int, k);
                    }
                    assert forall|j: int|
                        0 <= j < self.entries@.len() implies self.entries@[j].name@ != nview by {
                        if j < i {
                            assert(self.entries@[j] == s0[j]);
                        } else {
                            assert(self.entries@[j] == s0[j + 1]);
                        }
                    }
                }
            },
            None => {},
        }
        let ghost s1 = self.entries@;
        self.entries.push(Header { name, value });
        proof {
            assert(self.entries@.last().name@ == nview);
            assert(self.entries@.drop_last() =~= s1);
            assert(spec_headers_get(self.entries@, nview) == Some(vview));
            assert forall|k: Seq<char>| k != nview implies spec_headers_get(self.entries@, k)
                == spec_headers_get(s0, k) by {
                assert(spec_headers_get(self.entries@, k) == spec_headers_get(s1, k));
            }
        }
    }

    /// A value is stored under `name`.
    pub fn contains_key(&self, name: &str) -> (r: bool)
        ensures
            r == self.spec_contains(name@),
    {
        let r = self.find_index(&name.to_owned());
        proof {
            lemma_headers_get_present(self.entries@, name@);
        }
        match r {
            Some(_) => true,
            None => false,
        }
    }

    /// The value stored under `name`, if any.
    pub fn get(&self, name: &str) -> (r: Option<&String>)
        requires
            self.wf(),
        ensures
            r matches Some(v) ==> self.spec_get(name@) == Some(v@),
            r is None ==> self.spec_get(name@) is None,
    {
        let found = self.find_index(&name.to_owned());
        proof {
            lemma_headers_get_present(self.entries@, name@);
        }
        match found {
            Some(i) => {
                proof {
                    lemma_headers_get_at(self.entries@, i as int, name@);
                }
                Some(&self.entries[i].value)
            },
            None => None,
        }
    }

    /// Number of headers held.
    pub fn len(&self) -> (r: usize)
        ensures
            r == self.spec_len(),
    {
        self.entries.len()
    }

    /// Stores every header of `other`, replacing values already present
    /// under the same names.
    pub fn extend(&mut self, other: HeaderMap)
        requires
            old(self).wf(),
            other.wf(),
        ensures
            final(self).wf(),
            forall|k: Seq<char>|
                final(self).spec_get(k) == if other.spec_get(k) is Some {
                    other.spec_get(k)
                } else {
                    old(self).spec_get(k)
                },
    {
        let ghost oview = other.entries@;
        let mut i: usize = 0;
        while i < other.entries.len()
            invariant
                i <= oview.len(),
                other.entries@ == oview,
                other.wf(),
                self.wf(),
                forall|k: Seq<char>|
                    self.spec_get(k) == if spec_headers_get(oview.take(i as int), k) is Some {
                        spec_headers_get(oview.take(i as int), k)
                    } else {
                        old(self).spec_get(k)
                    },
            decreases oview.len() - i,
        {
            let name = other.entries[i].name.clone();
            let value = other.entries[i].value.clone();
            self.insert(name, value);
            proof {
                let t1 = oview.take(i as int + 1);
                assert(t1.last() == oview[i as int]);
                assert(t1.drop_last() =~= oview.take(i as int));
            }
            i += 1;
        }
        proof {
            assert(oview.take(oview.len() as int) =~= oview);
        }
    }
}

/// What the gzip encoding of a byte run is. Relied on to be a function of
/// the input bytes alone, which holds of flate2's encoder at a fixed
/// compression level.
pub uninterp spec fn gzip_of(content: Seq<u8>) -> Seq<u8>;

/// Relies on flate2's `write::GzEncoder` at the default compression level
/// over an in-memory buffer: `write_all` followed by `finish` yields the
/// gzip encoding of the input. Errors can come only from the underlying
/// writer and are reported as `None`.
#[verifier::external_body]
fn gzip_compress(content: &[u8]) -> (r: Option<Vec<u8>>)
    ensures
        r matches Some(c) ==> c@ == gzip_of(content@),
{
    let mut gz = flate2::write::GzEncoder::new(Vec::new(), flate2::Compression::default());
    if gz.write_all(content).is_err() {
        return None;
    }
    gz.finish().ok()
}

/// What decompressing a byte run as a gzip stream with a UTF-8 payload
/// gives, when it is one. A function of the input bytes alone.
pub uninterp spec fn gunzip_str_of(body: Seq<u8>) -> Option<Seq<char>>;

/// Relies on flate2's `read::GzDecoder` together with std's
/// `Read::read_to_string`: on a gzip stream whose payload is UTF-8 it
/// yields that payload as text, and fails on anything else — a failure
/// of either decompression or UTF-8 decoding gives `None`.
#[verifier::external_body]
fn gzip_decompress_to_string(body: &[u8]) -> (r: Option<String>)
    ensures
        opt_string_view(r) == gunzip_str_of(body@),
{
    let mut gz = flate2::read::GzDecoder::new(body);
    let mut s = String::new();
    match gz.read_to_string(&mut s) {
        Ok(_) => Some(s),
        Err(_) => None,
    }
}

/// The UTF-8 decoding of a byte run, when the bytes are valid UTF-8. A
/// function of the bytes alone.
pub uninterp spec fn utf8_of(body: Seq<u8>) -> Option<Seq<char>>;

/// Relies on std's `str::from_utf8`: the text the bytes spell if they are
/// valid UTF-8, `None` otherwise.
#[verifier::external_body]
fn utf8_to_string(body: &[u8]) -> (r: Option<String>)
    ensures
        opt_string_view(r) == utf8_of(body@),
{
    match std::str::from_utf8(body) {
        Ok(s) => Some(s.to_string()),
        Err(_) => None,
    }
}

/// The indented re-serialization of a JSON text, when it parses as JSON. A
/// function of the text alone.
pub uninterp spec fn pretty_json_of(payload: Seq<char>) -> Option<Seq<char>>;

/// Relies on serde_json's `from_str::<Value>` and `to_string_pretty`: the
/// indented re-serialization of the payload if it parses as JSON, `None`
/// otherwise. The two calls form one wrapper because the parsed value in
/// between is an opaque outside type; the pipeline as a whole is a
/// function of the payload text alone.
#[verifier::external_body]
fn json_pretty_print(payload: &str) -> (r: Option<String>)
    ensures
        opt_string_view(r) == pretty_json_of(payload@),
{
    match serde_json::from_str::<serde_json::Value>(payload) {
        Ok(v) => serde_json::to_string_pretty(&v).ok(),
        Err(_) => None,
    }
}

/// The version identifier this library reports in the client header.
pub fn glean_version() -> (r: &'static str)
    ensures
        r@ == "63.0.0"@,
{
    "63.0.0"
}

/// The operating-system tag reported in the client header.
/// Target-specific detection belongs to the embedding application; the
/// library itself reports a neutral tag.
pub fn os_tag() -> (r: &'static str)
    ensures
        r@ == "unknown"@,
{
    "unknown"
}

/// The client-identification header value.
pub open spec fn spec_agent_header(
    version: Seq<char>,
    binding: Seq<char>,
    system: Seq<char>,
) -> Seq<char> {
    "Glean/"@ + version + " ("@ + binding + " on "@ + system + ")"@
}

/// Formats the client-identification header value.
pub fn create_x_telemetry_agent_header_value(
    version: &str,
    language_binding_name: &str,
    system: &str,
) -> (r: String)
    ensures
        r@ == spec_agent_header(version@, language_binding_name@, system@),
{
    let mut s = "Glean/".to_owned();
    s.append(version);
    s.append(" (");
    s.append(language_binding_name);
    s.append(" on ");
    s.append(system);
    s.append(")");
    proof {
        assert(s@ =~= spec_agent_header(version@, language_binding_name@, system@));
    }
    s
}

/// Name of the day of the week, by weekday index with 0 as Sunday.
pub open spec fn spec_weekday_name(wd: int) -> Seq<char> {
    if wd == 0 {
        "Sun"@
    } else if wd == 1 {
        "Mon"@
    } else if wd == 2 {
        "Tue"@
    } else if wd == 3 {
        "Wed"@
    } else if wd == 4 {
        "Thu"@
    } else if wd == 5 {
        "Fri"@
    } else {
        "Sat"@
    }
}

fn weekday_name(wd: u64) -> (r: &'static str)
    requires
        wd < 7,
    ensures
        r@ == spec_weekday_name(wd as int),
{
    match wd {
        0 => "Sun",
        1 => "Mon",
        2 => "Tue",
        3 => "Wed",
        4 => "Thu",
        5 => "Fri",
        _ => "Sat",
    }
}

/// Abbreviated month name, by month number starting at 1.
pub open spec fn spec_month_name(m: int) -> Seq<char> {
    if m == 1 {
        "Jan"@
    } else if m == 2 {
        "Feb"@
    } else if m == 3 {
        "Mar"@
    } else if m == 4 {
        "Apr"@
    } else if m == 5 {
        "May"@
    } else if m == 6 {
        "Jun"@
    } else if m == 7 {
        "Jul"@
    } else if m == 8 {
        "Aug"@
    } else if m == 9 {
        "Sep"@
    } else if m == 10 {
        "Oct"@
    } else if m == 11 {
        "Nov"@
    } else {
        "Dec"@
    }
}

fn month_name(m: u64) -> (r: &'static str)
    requires
        1 <= m <= 12,
    ensures
        r@ == spec_month_name(m as int),
{
    match m {
        1 => "Jan",
        2 => "Feb",
        3 => "Mar",
        4 => "Apr",
        5 => "May",
        6 => "Jun",
        7 => "Jul",
        8 => "Aug",
        9 => "Sep",
        10 => "Oct",
        11 => "Nov",
        _ => "Dec",
    }
}

/// The fixed textual layout of a date header:
/// day-name, day month-name year hour:minute:second, then the GMT tag.
pub open spec fn spec_date_header(t: Datetime) -> Seq<char> {
    spec_weekday_name(spec_weekday(t.year as int, t.month as int, t.day as int)) + ", "@
        + spec_two_digits(t.day as int) + " "@ + spec_month_name(t.month as int) + " "@
        + spec_four_digits(t.year as int) + " "@ + spec_two_digits(t.hour as int) + ":"@
        + spec_two_digits(t.minute as int) + ":"@ + spec_two_digits(t.second as int) + " GMT"@
}

/// Formats a date string for use in a Date header.
pub fn create_date_header_value(current_time: &Datetime) -> (r: String)
    requires
        current_time.valid(),
    ensures
        r@ == spec_date_header(*current_time),
{
    let wd = current_time.weekday();
    let mut s = weekday_name(wd).to_owned();
    s.append(", ");
    s.append(two_digits(current_time.day as u64).as_str());
    s.append(" ");
    s.append(month_name(current_time.month as u64));
    s.append(" ");
    s.append(four_digits(current_time.year as u64).as_str());
    s.append(" ");
    s.append(two_digits(current_time.hour as u64).as_str());
    s.append(":");
    s.append(two_digits(current_time.minute as u64).as_str());
    s.append(":");
    s.append(two_digits(current_time.second as u64).as_str());
    s.append(" GMT");
    proof {
        assert(s@ =~= spec_date_header(*current_time));
    }
    s
}

/// A staged constructor for a `PingRequest`.
pub struct Builder {
    pub document_id: Option<String>,
    pub path: Option<String>,
    pub body: Option<Vec<u8>>,
    pub headers: HeaderMap,
    pub body_max_size: usize,
    pub body_has_info_sections: Option<bool>,
    pub ping_name: Option<String>,
    pub uploader_capabilities: Option<Vec<String>>,
}

/// How setting the body rewrites the headers: the content length records
/// the final body's byte length; the gzip content-encoding marker is added
/// exactly when compression succeeded; nothing else moves.
pub open spec fn spec_headers_after_body(
    old_h: HeaderMap,
    new_h: HeaderMap,
    blen: int,
    gz: bool,
) -> bool {
    &&& new_h.spec_get("Content-Length"@) == Some(spec_decimal(blen))
    &&& (gz ==> new_h.spec_get("Content-Encoding"@) == Some("gzip"@))
    &&& (!gz ==> new_h.spec_get("Content-Encoding"@) == old_h.spec_get("Content-Encoding"@))
    &&& forall|k: Seq<char>|
        k != "Content-Length"@ && k != "Content-Encoding"@ ==> new_h.spec_get(k)
            == old_h.spec_get(k)
}

impl Builder {
    /// Headers are well formed.
    pub open spec fn wf(self) -> bool {
        self.headers.wf()
    }

    /// Creates a new builder for a `PingRequest`, with the
    /// client-identification and content-type headers already present.
    pub fn new(language_binding_name: &str, body_max_size: usize) -> (r: Builder)
        ensures
            r.wf(),
            r.document_id is None,
            r.path is None,
            r.body is None,
            r.body_has_info_sections is None,
            r.ping_name is None,
            r.uploader_capabilities is None,
            r.body_max_size == body_max_size,
            r.headers.spec_get("X-Telemetry-Agent"@) == Some(
                spec_agent_header("63.0.0"@, language_binding_name@, "unknown"@),
            ),
            r.headers.spec_get("Content-Type"@) == Some("application/json; charset=utf-8"@),
            forall|k: Seq<char>|
                k != "X-Telemetry-Agent"@ && k != "Content-Type"@ ==> r.headers.spec_get(k)
                    is None,
    {
        proof {
            reveal_strlit("X-Telemetry-Agent");
            reveal_strlit("Content-Type");
            assert("X-Telemetry-Agent"@.len() == 17);
            assert("Content-Type"@.len() == 12);
        }
        let mut headers = HeaderMap::new();
        headers.insert(
            "X-Telemetry-Agent".to_owned(),
            create_x_telemetry_agent_header_value(
                glean_version(),
                language_binding_name,
                os_tag(),
            ),
        );
        headers.insert(
            "Content-Type".to_owned(),
            "application/json; charset=utf-8".to_owned(),
        );
        Builder {
            document_id: None,
            path: None,
            body: None,
            headers,
            body_max_size,
            body_has_info_sections: None,
            ping_name: None,
            uploader_capabilities: None,
        }
    }

    /// Sets the document id for this request.
    pub fn document_id(self, value: &str) -> (r: Self)
        ensures
            r.document_id matches Some(s) && s@ == value@,
            r.path == self.path,
            r.body == self.body,
            r.headers == self.headers,
            r.body_max_size == self.body_max_size,
            r.body_has_info_sections == self.body_has_info_sections,
            r.ping_name == self.ping_name,
            r.uploader_capabilities == self.uploader_capabilities,
    {
        Builder { document_id: Some(value.to_owned()), ..self }
    }

    /// Sets the destination path for this request.
    pub fn path(self, value: &str) -> (r: Self)
        ensures
            r.path matches Some(s) && s@ == value@,
            r.document_id == self.document_id,
            r.body == self.body,
            r.headers == self.headers,
            r.body_max_size == self.body_max_size,
            r.body_has_info_sections == self.body_has_info_sections,
            r.ping_name == self.ping_name,
            r.uploader_capabilities == self.uploader_capabilities,
    {
        Builder { path: Some(value.to_owned()), ..self }
    }

    /// Sets the body for this request from its textual payload.
    ///
    /// Attempts to compress the payload: on success the stored body is the
    /// compressed bytes and the gzip content-encoding header is added; on
    /// failure the stored body is the raw bytes and no encoding header is
    /// added. Either way the content-length header records the final
    /// body's byte length. The path must already be set; it gives
    /// diagnostic context only and does not shape the body.
    pub fn body(self, value: &str) -> (r: Self)
        requires
            self.path is Some,
            self.wf(),
        ensures
            r.wf(),
            r.document_id == self.document_id,
            r.path == self.path,
            r.body_max_size == self.body_max_size,
            r.body_has_info_sections == self.body_has_info_sections,
            r.ping_name == self.ping_name,
            r.uploader_capabilities == self.uploader_capabilities,
            r.body matches Some(b) && ((b@ == gzip_of(value.spec_bytes())
                && spec_headers_after_body(self.headers, r.headers, b@.len() as int, true)) || (
            b@ == value.spec_bytes() && spec_headers_after_body(
                self.headers,
                r.headers,
                b@.len() as int,
                false,
            ))),
    {
        proof {
            reveal_strlit("Content-Length");
            reveal_strlit("Content-Encoding");
            assert("Content-Length"@.len() == 14);
            assert("Content-Encoding"@.len() == 16);
        }
        let compressed = gzip_compress(value.as_bytes());
        match compressed {
            Some(c) => {
                let len_str = u64_to_decimal(c.len() as u64);
                let me = self.header("Content-Length", len_str.as_str());
                let me = me.header("Content-Encoding", "gzip");
                Builder { body: Some(c), ..me }
            },
            None => {
                let raw = value.as_bytes_vec();
                let len_str = u64_to_decimal(raw.len() as u64);
                let me = self.header("Content-Length", len_str.as_str());
                Builder { body: Some(raw), ..me }
            },
        }
    }

    /// Sets whether the request body carries the info sections.
    pub fn body_has_info_sections(self, body_has_info_sections: bool) -> (r: Self)
        ensures
            r.body_has_info_sections == Some(body_has_info_sections),
            r.document_id == self.document_id,
            r.path == self.path,
            r.body == self.body,
            r.headers == self.headers,
            r.body_max_size == self.body_max_size,
            r.ping_name == self.ping_name,
            r.uploader_capabilities == self.uploader_capabilities,
    {
        Builder { body_has_info_sections: Some(body_has_info_sections), ..self }
    }

    /// Sets the ping's name, also called its doctype.
    pub fn ping_name(self, ping_name: &str) -> (r: Self)
        ensures
            r.ping_name matches Some(s) && s@ == ping_name@,
            r.document_id == self.document_id,
            r.path == self.path,
            r.body == self.body,
            r.headers == self.headers,
            r.body_max_size == self.body_max_size,
            r.body_has_info_sections == self.body_has_info_sections,
            r.uploader_capabilities == self.uploader_capabilities,
    {
        Builder { ping_name: Some(ping_name.to_owned()), ..self }
    }

    /// Sets one header for this request, replacing any previous value
    /// under the same name.
    pub fn header(self, key: &str, value: &str) -> (r: Self)
        requires
            self.wf(),
        ensures
            r.wf(),
            r.headers.spec_get(key@) == Some(value@),
            forall|k: Seq<char>|
                k != key@ ==> r.headers.spec_get(k) == self.headers.spec_get(k),
            r.document_id == self.document_id,
            r.path == self.path,
            r.body == self.body,
            r.body_max_size == self.body_max_size,
            r.body_has_info_sections == self.body_has_info_sections,
            r.ping_name == self.ping_name,
            r.uploader_capabilities == self.uploader_capabilities,
    {
        let mut me = self;
        me.headers.insert(key.to_owned(), value.to_owned());
        me
    }

    /// Sets several headers at once, replacing any previous values under
    /// the same names.
    pub fn headers(self, values: HeaderMap) -> (r: Self)
        requires
            self.wf(),
            values.wf(),
        ensures
            r.wf(),
            forall|k: Seq<char>|
                r.headers.spec_get(k) == if values.spec_get(k) is Some {
                    values.spec_get(k)
                } else {
                    self.headers.spec_get(k)
                },
            r.document_id == self.document_id,
            r.path == self.path,
            r.body == self.body,
            r.body_max_size == self.body_max_size,
            r.body_has_info_sections == self.body_has_info_sections,
            r.ping_name == self.ping_name,
            r.uploader_capabilities == self.uploader_capabilities,
    {
        let mut me = self;
        me.headers.extend(values);
        me
    }

    /// Sets the uploader capabilities required for this request.
    pub fn uploader_capabilities(self, uploader_capabilities: Vec<String>) -> (r: Self)
        ensures
            r.uploader_capabilities == Some(uploader_capabilities),
            r.document_id == self.document_id,
            r.path == self.path,
            r.body == self.body,
            r.headers == self.headers,
            r.body_max_size == self.body_max_size,
            r.body_has_info_sections == self.body_has_info_sections,
            r.ping_name == self.ping_name,
    {
        Builder { uploader_capabilities: Some(uploader_capabilities), ..self }
    }

    /// Consumes the builder and creates a `PingRequest`.
    ///
    /// Fails with a size-overflow error, carrying the offending size, if
    /// and only if the final body is larger than the configured maximum.
    /// The body must already be set, and — unless the size check fails
    /// first — so must every other required field.
    pub fn build(self) -> (r: Result<PingRequest, ErrorKind>)
        requires
            self.body is Some,
            self.body.unwrap()@.len() <= self.body_max_size ==> {
                &&& self.document_id is Some
                &&& self.path is Some
                &&& self.body_has_info_sections is Some
                &&& self.ping_name is Some
                &&& self.uploader_capabilities is Some
            },
        ensures
            self.body.unwrap()@.len() > self.body_max_size ==> r == Result::<
                PingRequest,
                ErrorKind,
            >::Err(ErrorKind::PingBodyOverflow(self.body.unwrap()@.len() as usize)),
            self.body.unwrap()@.len() <= self.body_max_size ==> (r matches Ok(p) && {
                &&& p.document_id == self.document_id.unwrap()
                &&& p.path == self.path.unwrap()
                &&& p.body == self.body.unwrap()
                &&& p.headers == self.headers
                &&& p.body_has_info_sections == self.body_has_info_sections.unwrap()
                &&& p.ping_name == self.ping_name.unwrap()
                &&& p.uploader_capabilities == self.uploader_capabilities.unwrap()
            }),
    {
        let Builder {
            document_id,
            path,
            body,
            headers,
            body_max_size,
            body_has_info_sections,
            ping_name,
            uploader_capabilities,
        } = self;
        let body = body.unwrap();
        if body.len() > body_max_size {
            return Err(ErrorKind::PingBodyOverflow(body.len()));
        }
        Ok(
            PingRequest {
                document_id: document_id.unwrap(),
                path: path.unwrap(),
                body,
                headers,
                body_has_info_sections: body_has_info_sections.unwrap(),
                ping_name: ping_name.unwrap(),
                uploader_capabilities: uploader_capabilities.unwrap(),
            },
        )
    }
}

/// Best-effort reconstruction of a body's indented JSON text: decompress
/// when the body is a gzip stream, fall back to reading it as plain UTF-8,
/// then re-serialize with indentation; any failure gives no value.
pub open spec fn spec_pretty_body(body: Seq<u8>) -> Option<Seq<char>> {
    match gunzip_str_of(body) {
        Some(s) => pretty_json_of(s),
        None => match utf8_of(body) {
            Some(s) => pretty_json_of(s),
            None => None,
        },
    }
}

/// A request to upload a ping.
#[derive(Clone, Debug)]
pub struct PingRequest {
    /// The job id identifying this request; the same as the ping's id.
    pub document_id: String,
    /// The path for the server to upload the ping to.
    pub path: String,
    /// The body of the request. If gzip-encoded, the headers carry a
    /// content-encoding marker saying so.
    pub body: Vec<u8>,
    /// All the headers to be sent with the request.
    pub headers: HeaderMap,
    /// Whether the body carries the info sections.
    pub body_has_info_sections: bool,
    /// The ping's name; likely also part of `path`.
    pub ping_name: String,
    /// The capabilities required while uploading this ping.
    pub uploader_capabilities: Vec<String>,
}

impl PingRequest {
    /// Creates a builder for a `PingRequest`.
    pub fn builder(language_binding_name: &str, body_max_size: usize) -> (r: Builder)
        ensures
            r.wf(),
            r.document_id is None,
            r.path is None,
            r.body is None,
            r.body_has_info_sections is None,
            r.ping_name is None,
            r.uploader_capabilities is None,
            r.body_max_size == body_max_size,
            r.headers.spec_get("X-Telemetry-Agent"@) == Some(
                spec_agent_header("63.0.0"@, language_binding_name@, "unknown"@),
            ),
            r.headers.spec_get("Content-Type"@) == Some("application/json; charset=utf-8"@),
            forall|k: Seq<char>|
                k != "X-Telemetry-Agent"@ && k != "Content-Type"@ ==> r.headers.spec_get(k)
                    is None,
    {
        Builder::new(language_binding_name, body_max_size)
    }

    /// Whether this request carries a deletion-request ping: true exactly
    /// when the ping's name is the reserved deletion-request name.
    pub fn is_deletion_request(&self) -> (r: bool)
        ensures
            r == (self.ping_name@ == "deletion-request"@),
    {
        self.ping_name == "deletion-request".to_owned()
    }

    /// Decompresses and pretty-formats the ping payload, for logging.
    /// Best effort: any failure yields no value.
    pub fn pretty_body(&self) -> (r: Option<String>)
        ensures
            opt_string_view(r) == spec_pretty_body(self.body@),
    {
        match gzip_decompress_to_string(self.body.as_slice()) {
            Some(s) => json_pretty_print(s.as_str()),
            None => match utf8_to_string(self.body.as_slice()) {
                Some(s) => json_pretty_print(s.as_str()),
                None => None,
            },
        }
    }
}

} // verus!
