use vstd::prelude::*;

use crate::text::{
    chars_to_string, dec_digits, lossy_of, push_str_chars, str_to_chars, try_utf8, u64_dec_chars,
    u64_to_decimal, utf8_lossy,
};
use crate::cli_options::DisplayOpts;
use vstd::string::StringExecFns;
use vstd::utf8::{decode_utf8, valid_utf8};

verus! {

/// One user-set header of a consumed message.
#[derive(Debug, Clone, PartialEq, Eq)]
pub struct Header {
    pub key: String,
    pub value: String,
}

/// One message handed over by the broker consumer, reduced to plain values:
/// the opaque identifier arrives already rendered.
#[derive(Debug, Clone, PartialEq, Eq)]
pub struct ConsumedMessage {
    pub topic: String,
    pub message_id: String,
    pub key: Option<String>,
    pub payload: Vec<u8>,
    pub publish_time: u64,
    pub headers: Vec<Header>,
}

/// The fields a consumed message offers to the renderer, at the
/// specification level.
pub ghost struct FormatInput {
    pub topic: Seq<char>,
    pub message_id: Seq<char>,
    pub key: Option<Seq<char>>,
    pub payload: Seq<u8>,
    pub publish_time: u64,
    pub headers: Seq<Header>,
}

/// The view of an optional key.
pub open spec fn key_view(key: Option<&str>) -> Option<Seq<char>> {
    match key {
        Some(k) => Some(k@),
        None => None,
    }
}

/// One header rendered as `key=value`.
pub open spec fn header_text(h: Header) -> Seq<char> {
    h.key@ + "="@ + h.value@
}

/// The headers from position `i` on, rendered `key=value` and joined by
/// `, `.
pub open spec fn headers_text_from(hs: Seq<Header>, i: int) -> Seq<char>
    recommends
        0 <= i <= hs.len(),
    decreases hs.len() - i,
{
    if i >= hs.len() {
        Seq::empty()
    } else if i == hs.len() - 1 {
        header_text(hs[i])
    } else {
        header_text(hs[i]) + ", "@ + headers_text_from(hs, i + 1)
    }
}

/// All headers rendered `key=value` and joined by `, `.
pub open spec fn headers_text(hs: Seq<Header>) -> Seq<char> {
    headers_text_from(hs, 0)
}

/// What a two-character placeholder `%c` expands to. An unrecognized code is
/// passed through literally as `%` followed by the character.
pub open spec fn placeholder_expansion(c: char, f: FormatInput) -> Seq<char> {
    if c == 't' {
        f.topic
    } else if c == 'p' {
        f.message_id
    } else if c == 'o' {
        f.message_id
    } else if c == 'k' {
        match f.key {
            Some(k) => k,
            None => Seq::empty(),
        }
    } else if c == 's' {
        lossy_of(f.payload)
    } else if c == 'S' {
        dec_digits(f.payload.len())
    } else if c == 'h' {
        headers_text(f.headers)
    } else if c == 'T' {
        dec_digits(f.publish_time as nat)
    } else if c == '%' {
        seq!['%']
    } else {
        seq!['%', c]
    }
}

/// A single left-to-right scan of the format string: `%` begins a
/// two-character placeholder; a trailing unmatched `%` is emitted literally.
pub open spec fn format_spec(fmt: Seq<char>, f: FormatInput) -> Seq<char>
    decreases fmt.len(),
{
    if fmt.len() == 0 {
        Seq::empty()
    } else if fmt[0] == '%' {
        if fmt.len() == 1 {
            seq!['%']
        } else {
            placeholder_expansion(fmt[1], f) + format_spec(fmt.subrange(2, fmt.len() as int), f)
        }
    } else {
        seq![fmt[0]] + format_spec(fmt.subrange(1, fmt.len() as int), f)
    }
}

fn header_chars(h: &Header) -> (r: Vec<char>)
    ensures
        r@ == header_text(*h),
{
    let mut out: Vec<char> = Vec::new();
    push_str_chars(&mut out, h.key.as_str());
    push_str_chars(&mut out, "=");
    push_str_chars(&mut out, h.value.as_str());
    out
}

fn headers_chars_from(headers: &Vec<Header>, i: usize) -> (r: Vec<char>)
    requires
        i <= headers@.len(),
    ensures
        r@ == headers_text_from(headers@, i as int),
    decreases headers@.len() - i,
{
    if i >= headers.len() {
        Vec::new()
    } else {
        let mut out = header_chars(&headers[i]);
        if i + 1 < headers.len() {
            push_str_chars(&mut out, ", ");
            let mut rest = headers_chars_from(headers, i + 1);
            out.append(&mut rest);
        }
        out
    }
}

fn push_placeholder(
    out: &mut Vec<char>,
    c: char,
    topic: &str,
    message_id: &str,
    key: Option<&str>,
    payload: &Vec<u8>,
    timestamp: u64,
    headers: &Vec<Header>,
)
    ensures
        final(out)@ == old(out)@ + placeholder_expansion(
            c,
            FormatInput {
                topic: topic@,
                message_id: message_id@,
                key: key_view(key),
                payload: payload@,
                publish_time: timestamp,
                headers: headers@,
            },
        ),
{
    if c == 't' {
        push_str_chars(out, topic);
    } else if c == 'p' {
        push_str_chars(out, message_id);
    } else if c == 'o' {
        push_str_chars(out, message_id);
    } else if c == 'k' {
        match key {
            Some(k) => push_str_chars(out, k),
            None => (),
        }
    } else if c == 's' {
        let s = utf8_lossy(payload.as_slice());
        push_str_chars(out, s.as_str());
    } else if c == 'S' {
        let mut digits = u64_dec_chars(payload.len() as u64);
        out.append(&mut digits);
    } else if c == 'h' {
        let mut hs = headers_chars_from(headers, 0);
        out.append(&mut hs);
    } else if c == 'T' {
        let mut digits = u64_dec_chars(timestamp);
        out.append(&mut digits);
    } else if c == '%' {
        out.push('%');
    } else {
        out.push('%');
        out.push(c);
    }
}

/// Renders one consumed message through a placeholder format string.
///
/// Recognized codes: `%t` topic, `%p` and `%o` the message identifier, `%k`
/// key or empty, `%s` payload decoded as UTF-8 with invalid sequences
/// replaced, `%S` payload byte length, `%h` headers as `key=value` joined by
/// `, `, `%T` publish time, `%%` a literal percent. Anything else after `%`
/// passes through literally, and so does a trailing `%`.
pub fn format_message(
    format_str: &str,
    topic: &str,
    message_id: &str,
    key: Option<&str>,
    payload: &Vec<u8>,
    timestamp: u64,
    headers: &Vec<Header>,
) -> (r: String)
    ensures
        r@ == format_spec(
            format_str@,
            FormatInput {
                topic: topic@,
                message_id: message_id@,
                key: key_view(key),
                payload: payload@,
                publish_time: timestamp,
                headers: headers@,
            },
        ),
{
    let ghost f = FormatInput {
        topic: topic@,
        message_id: message_id@,
        key: key_view(key),
        payload: payload@,
        publish_time: timestamp,
        headers: headers@,
    };
    let fmt = str_to_chars(format_str);
    let n = fmt.len();
    let mut out: Vec<char> = Vec::new();
    let mut i: usize = 0;
    proof {
        assert(fmt@.subrange(0, n as int) =~= fmt@);
        assert(out@ + format_spec(fmt@, f) =~= format_spec(fmt@, f));
    }
    while i < n
        invariant
            i <= n,
            n == fmt@.len(),
            fmt@ == format_str@,
            f == (FormatInput {
                topic: topic@,
                message_id: message_id@,
                key: key_view(key),
                payload: payload@,
                publish_time: timestamp,
                headers: headers@,
            }),
            format_spec(format_str@, f) == out@ + format_spec(
                fmt@.subrange(i as int, n as int),
                f,
            ),
        decreases n - i,
    {
        let ghost out0 = out@;
        let ghost before = fmt@.subrange(i as int, n as int);
        let c = fmt[i];
        if c == '%' {
            if i + 1 == n {
                out.push('%');
                i = i + 1;
                proof {
                    assert(before.len() == 1);
                    assert(before[0] == '%');
                    let after = fmt@.subrange(i as int, n as int);
                    assert(after =~= Seq::<char>::empty());
                    assert(format_spec(before, f) == seq!['%']);
                    assert(out0 + format_spec(before, f) =~= out@ + format_spec(after, f));
                }
            } else {
                let c2 = fmt[i + 1];
                push_placeholder(
                    &mut out,
                    c2,
                    topic,
                    message_id,
                    key,
                    payload,
                    timestamp,
                    headers,
                );
                i = i + 2;
                proof {
                    assert(before[0] == '%');
                    assert(before[1] == c2);
                    let after = fmt@.subrange(i as int, n as int);
                    assert(before.subrange(2, before.len() as int) =~= after);
                    assert(format_spec(before, f) == placeholder_expansion(c2, f)
                        + format_spec(after, f));
                    assert(out@ == out0 + placeholder_expansion(c2, f));
                    assert(out0 + format_spec(before, f) =~= out@ + format_spec(after, f));
                }
            }
        } else {
            out.push(c);
            i = i + 1;
            proof {
                assert(before[0] == c);
                let after = fmt@.subrange(i as int, n as int);
                assert(before.subrange(1, before.len() as int) =~= after);
                assert(format_spec(before, f) == seq![c] + format_spec(after, f));
                assert(out0 + format_spec(before, f) =~= out@ + format_spec(after, f));
            }
        }
    }
    proof {
        assert(fmt@.subrange(n as int, n as int) =~= Seq::<char>::empty());
        assert(out@ + format_spec(fmt@.subrange(n as int, n as int), f) =~= out@);
    }
    chars_to_string(&out)
}

/// What `serde_json::to_string` makes of a string value: the JSON string
/// literal for it, quotes included. A function of the characters alone; its
/// exact form is only spelled out for characters that need no escaping (see
/// `json_quote`).
pub uninterp spec fn json_quoted(s: Seq<char>) -> Seq<char>;

/// Characters that JSON renders unescaped: everything but the quote, the
/// backslash and the control range.
pub open spec fn json_plain(s: Seq<char>) -> bool {
    forall|i: int| 0 <= i < s.len() ==> s[i] != '"' && s[i] != '\\' && s[i] as u32 >= 0x20
}

/// Relies on `serde_json::to_string` for `str` values: the result is the
/// JSON string literal, in quotes, with only the quote, the backslash and
/// control characters escaped; serializing a `str` cannot fail.
#[verifier::external_body]
fn json_quote(s: &str) -> (r: String)
    ensures
        r@ == json_quoted(s@),
        json_plain(s@) ==> r@ == seq!['"'] + s@ + seq!['"'],
{
    match serde_json::to_string(s) {
        Ok(r) => r,
        Err(_) => String::new(),
    }
}

/// The compact JSON envelope for one consumed message: fixed fields in the
/// serializer's (alphabetical) key order, the payload shown as UTF-8 text or
/// as a literal marker when it is not valid UTF-8.
pub open spec fn json_envelope_spec(
    topic: Seq<char>,
    message_id: Seq<char>,
    key: Option<Seq<char>>,
    payload: Seq<u8>,
    publish_time: u64,
) -> Seq<char> {
    "{\"key\":"@ + (match key {
        Some(k) => json_quoted(k),
        None => "null"@,
    }) + ",\"message_id\":"@ + json_quoted(message_id) + ",\"payload\":"@ + (if valid_utf8(
        payload,
    ) {
        json_quoted(decode_utf8(payload))
    } else {
        json_quoted("<binary data>"@)
    }) + ",\"payload_size\":"@ + dec_digits(payload.len()) + ",\"publish_time\":"@ + dec_digits(
        publish_time as nat,
    ) + ",\"topic\":"@ + json_quoted(topic) + "}"@
}

/// Renders one consumed message as its compact JSON envelope.
pub fn json_envelope(
    topic: &str,
    message_id: &str,
    key: Option<&str>,
    payload: &Vec<u8>,
    publish_time: u64,
) -> (r: String)
    ensures
        r@ == json_envelope_spec(topic@, message_id@, key_view(key), payload@, publish_time),
{
    let mut out = "{\"key\":".to_owned();
    match key {
        Some(k) => {
            let q = json_quote(k);
            out.append(q.as_str());
        },
        None => {
            out.append("null");
        },
    }
    out.append(",\"message_id\":");
    let qid = json_quote(message_id);
    out.append(qid.as_str());
    out.append(",\"payload\":");
    match try_utf8(payload.as_slice()) {
        Some(text) => {
            let q = json_quote(text.as_str());
            out.append(q.as_str());
        },
        None => {
            let q = json_quote("<binary data>");
            out.append(q.as_str());
        },
    }
    out.append(",\"payload_size\":");
    let size = u64_to_decimal(payload.len() as u64);
    out.append(size.as_str());
    out.append(",\"publish_time\":");
    let ts = u64_to_decimal(publish_time);
    out.append(ts.as_str());
    out.append(",\"topic\":");
    let qt = json_quote(topic);
    out.append(qt.as_str());
    out.append("}");
    out
}


/// The view of an optional owned key.
pub open spec fn opt_string_view(k: Option<String>) -> Option<Seq<char>> {
    match k {
        Some(s) => Some(s@),
        None => None,
    }
}

/// The renderer's input drawn from one consumed message.
pub open spec fn message_format_input(m: ConsumedMessage) -> FormatInput {
    FormatInput {
        topic: m.topic@,
        message_id: m.message_id@,
        key: opt_string_view(m.key),
        payload: m.payload@,
        publish_time: m.publish_time,
        headers: m.headers@,
    }
}

/// What one consumed message is rendered as: the JSON envelope in JSON
/// mode, the placeholder expansion under a custom format string, and
/// otherwise the bare payload decoded as UTF-8 with invalid sequences
/// replaced.
pub open spec fn rendered_spec(json: bool, format: Option<Seq<char>>, m: ConsumedMessage) -> Seq<
    char,
> {
    if json {
        json_envelope_spec(m.topic@, m.message_id@, opt_string_view(m.key), m.payload@, m.publish_time)
    } else {
        match format {
            Some(fs) => format_spec(fs, message_format_input(m)),
            None => lossy_of(m.payload@),
        }
    }
}

/// Renders one consumed message according to the display options. The three
/// modes are mutually exclusive: JSON wins over a custom format string,
/// which wins over the plain payload.
pub fn render_message(display: &DisplayOpts, m: &ConsumedMessage) -> (r: String)
    ensures
        r@ == rendered_spec(display.json, opt_string_view(display.format), *m),
{
    let key = match &m.key {
        Some(k) => Some(k.as_str()),
        None => None,
    };
    if display.json {
        json_envelope(m.topic.as_str(), m.message_id.as_str(), key, &m.payload, m.publish_time)
    } else {
        match &display.format {
            Some(fs) => format_message(
                fs.as_str(),
                m.topic.as_str(),
                m.message_id.as_str(),
                key,
                &m.payload,
                m.publish_time,
                &m.headers,
            ),
            None => utf8_lossy(m.payload.as_slice()),
        }
    }
}

} // verus!
