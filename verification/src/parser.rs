use vstd::prelude::*;

use crate::error::PulsarCatError;
use vstd::string::{StrSliceExecFns, StringExecFns};
use vstd::utf8::encode_utf8;

verus! {

/// One message derived from an input line: an optional key and the payload
/// bytes. Immutable once produced.
#[derive(Debug, Clone, PartialEq, Eq)]
pub struct ParsedMessage {
    pub key: Option<String>,
    pub payload: Vec<u8>,
}

/// `delim` occurs in `line` at position `p`.
pub open spec fn matches_at(line: Seq<char>, delim: Seq<char>, p: int) -> bool {
    &&& 0 <= p
    &&& p + delim.len() <= line.len()
    &&& line.subrange(p, p + delim.len() as int) == delim
}

/// `p` is the first position where `delim` occurs in `line`.
pub open spec fn is_first_occurrence(line: Seq<char>, delim: Seq<char>, p: int) -> bool {
    &&& matches_at(line, delim, p)
    &&& forall|q: int| 0 <= q < p ==> !matches_at(line, delim, q)
}

/// The message reported when a key is enforced but the delimiter is absent
/// from the line.
pub open spec fn missing_key_msg(delim: Seq<char>) -> Seq<char> {
    "Key is enforced but delimiter '"@ + delim + "' not found in the message"@
}

/// The view of an optional delimiter.
pub open spec fn delimiter_view(delimiter: Option<&str>) -> Option<Seq<char>> {
    match delimiter {
        Some(d) => Some(d@),
        None => None,
    }
}

/// `delim` occurs somewhere in `line`.
pub open spec fn has_occurrence(line: Seq<char>, delim: Seq<char>) -> bool {
    exists|p: int| matches_at(line, delim, p)
}

/// `m` is `line` split at the first occurrence of `delim`: the key is
/// everything before it, the payload the bytes of everything after it, and
/// the delimiter itself is consumed.
pub open spec fn splits_at_first(line: Seq<char>, delim: Seq<char>, m: ParsedMessage) -> bool {
    exists|p: int|
        {
            &&& #[trigger] is_first_occurrence(line, delim, p)
            &&& m.key matches Some(k) && k@ == line.subrange(0, p)
            &&& m.payload@ == encode_utf8(line.subrange(p + delim.len(), line.len() as int))
        }
}

/// `m` is a keyless message carrying the whole of `line`.
pub open spec fn whole_line_message(line: Seq<char>, m: ParsedMessage) -> bool {
    m.key is None && m.payload@ == encode_utf8(line)
}

/// What parsing one line must yield.
///
/// With a delimiter configured, the line is split at the delimiter's first
/// occurrence; a line without the delimiter fails when a key is enforced and
/// otherwise becomes a keyless message carrying the whole line. With no
/// delimiter configured the whole line is the payload, whatever the
/// enforcement flag says.
pub open spec fn parse_spec(
    line: Seq<char>,
    delimiter: Option<Seq<char>>,
    enforce_key: bool,
    r: Result<ParsedMessage, PulsarCatError>,
) -> bool {
    match delimiter {
        None => r matches Ok(m) && whole_line_message(line, m),
        Some(d) => if has_occurrence(line, d) {
            r matches Ok(m) && splits_at_first(line, d, m)
        } else if enforce_key {
            r matches Err(e) && e matches PulsarCatError::Application(msg) && msg@
                == missing_key_msg(d)
        } else {
            r matches Ok(m) && whole_line_message(line, m)
        },
    }
}

/// Only the first occurrence of the delimiter splits the line: any
/// occurrence from the end of the consumed delimiter onwards reappears,
/// unsplit, inside the remainder that becomes the payload.
pub proof fn lemma_later_occurrence_unsplit(line: Seq<char>, delim: Seq<char>, p: int, q: int)
    requires
        is_first_occurrence(line, delim, p),
        matches_at(line, delim, q),
        q >= p + delim.len(),
    ensures
        matches_at(line.subrange(p + delim.len(), line.len() as int), delim, q - p - delim.len()),
{
    let rest = line.subrange(p + delim.len(), line.len() as int);
    let q2 = q - p - delim.len();
    assert(rest.subrange(q2, q2 + delim.len() as int) =~= line.subrange(
        q,
        q + delim.len() as int,
    ));
}

/// Position of the first occurrence of `delim` in `line`, if there is one.
fn find_first(line: &str, delim: &str) -> (r: Option<usize>)
    ensures
        match r {
            Some(p) => is_first_occurrence(line@, delim@, p as int),
            None => forall|q: int| !matches_at(line@, delim@, q),
        },
{
    let n = line.unicode_len();
    let m = delim.unicode_len();
    if m > n {
        return None;
    }
    let mut p: usize = 0;
    while p <= n - m
        invariant
            m <= n,
            n as nat == line@.len(),
            m as nat == delim@.len(),
            p <= n - m + 1,
            forall|q: int| 0 <= q < p ==> !matches_at(line@, delim@, q),
        decreases n - m + 1 - p,
    {
        let mut j: usize = 0;
        let mut all_equal: bool = true;
        while j < m
            invariant
                p + m <= n,
                n as nat == line@.len(),
                m as nat == delim@.len(),
                j <= m,
                all_equal <==> (forall|i: int|
                    0 <= i < j ==> line@[p + i] == delim@[i]),
            decreases m - j,
        {
            if line.get_char(p + j) != delim.get_char(j) {
                all_equal = false;
                proof {
                    assert(line@[p + j] != delim@[j as int]);
                }
            }
            j = j + 1;
        }
        if all_equal {
            proof {
                assert(line@.subrange(p as int, p + m) =~= delim@);
            }
            return Some(p);
        }
        proof {
            let i = choose|i: int| 0 <= i < m && line@[p + i] != delim@[i];
            assert(line@.subrange(p as int, p + m)[i] != delim@[i]);
            assert(!matches_at(line@, delim@, p as int));
        }
        p = p + 1;
    }
    None
}

/// Splits a raw input line into an optional key and the payload bytes.
///
/// With a delimiter configured, the line is split at the delimiter's first
/// occurrence: the key is everything before it, the payload everything after
/// it, and the delimiter itself is consumed. A line without the delimiter
/// fails when a key is enforced, and otherwise becomes a keyless message
/// whose payload is the whole line. With no delimiter configured the whole
/// line is the payload, whatever the enforcement flag says: that situation
/// is rejected at startup validation, not here.
pub fn parse_line(line: &str, delimiter: Option<&str>, enforce_key: bool) -> (r: Result<
    ParsedMessage,
    PulsarCatError,
>)
    ensures
        parse_spec(line@, delimiter_view(delimiter), enforce_key, r),
{
    match delimiter {
        None => {
            let r = Ok(ParsedMessage { key: None, payload: line.as_bytes_vec() });
            proof {
                assert(parse_spec(line@, delimiter_view(delimiter), enforce_key, r));
            }
            r
        },
        Some(d) => {
            let n = line.unicode_len();
            let m = d.unicode_len();
            match find_first(line, d) {
                Some(p) => {
                    let key = line.substring_char(0, p).to_owned();
                    let rest = line.substring_char(p + m, n);
                    let r = Ok(ParsedMessage { key: Some(key), payload: rest.as_bytes_vec() });
                    proof {
                        assert(delimiter_view(delimiter) == Some(d@));
                        assert(matches_at(line@, d@, p as int));
                        assert(has_occurrence(line@, d@));
                        let rm = r->Ok_0;
                        assert(is_first_occurrence(line@, d@, p as int) && (rm.key matches Some(k)
                            && k@ == line@.subrange(0, p as int)) && rm.payload@ == encode_utf8(
                            line@.subrange(p + d@.len(), line@.len() as int),
                        ));
                        assert(splits_at_first(line@, d@, rm));
                        assert(parse_spec(line@, delimiter_view(delimiter), enforce_key, r));
                    }
                    r
                },
                None => {
                    if enforce_key {
                        let mut msg = "Key is enforced but delimiter '".to_owned();
                        msg.append(d);
                        msg.append("' not found in the message");
                        let r = Err(PulsarCatError::Application(msg));
                        proof {
                            assert(!has_occurrence(line@, d@));
                            assert(parse_spec(line@, delimiter_view(delimiter), enforce_key, r));
                        }
                        r
                    } else {
                        let r = Ok(ParsedMessage { key: None, payload: line.as_bytes_vec() });
                        proof {
                            assert(!has_occurrence(line@, d@));
                            assert(parse_spec(line@, delimiter_view(delimiter), enforce_key, r));
                        }
                        r
                    }
                },
            }
        },
    }
}

} // verus!
