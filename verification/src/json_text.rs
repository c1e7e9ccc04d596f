//! The minimal JSON handling of the Screen Share window and installer: reading
//! one value by key, escaping strings, and rewriting a string value in place.
use vstd::prelude::*;
use crate::text::{chars_of, find, push_chars, push_str, spec_find, string_of};

verus! {

/// The white space the reader skips around `:`.
pub open spec fn is_json_space(c: char) -> bool {
    c == ' ' || c == '\t' || c == '\r' || c == '\n'
}

/// The first position at or after `i` that is not JSON white space.
pub open spec fn skip_space(s: Seq<char>, i: int) -> int
    decreases s.len() - i,
{
    if 0 <= i < s.len() && is_json_space(s[i]) {
        skip_space(s, i + 1)
    } else {
        i
    }
}

/// The first position at or after `i` holding `c`, or the length of `s`.
pub open spec fn scan_to(s: Seq<char>, i: int, c: char) -> int
    decreases s.len() - i,
{
    if 0 <= i < s.len() && s[i] != c {
        scan_to(s, i + 1, c)
    } else {
        i
    }
}

/// `scan_to` from `lo` stops at `hi` when `hi` holds `c` and nothing before
/// it from `lo` on does.
pub(crate) proof fn lemma_scan_stops(s: Seq<char>, lo: int, hi: int, c: char)
    requires
        0 <= lo <= hi < s.len(),
        s[hi] == c,
        forall|i: int| lo <= i < hi ==> s[i] != c,
    ensures
        scan_to(s, lo, c) == hi,
    decreases hi - lo,
{
    if lo < hi {
        lemma_scan_stops(s, lo + 1, hi, c);
    }
}

/// The end of the run of ASCII digits that starts at `i`.
pub open spec fn digits_end(s: Seq<char>, i: int) -> int
    decreases s.len() - i,
{
    if 0 <= i < s.len() && '0' <= s[i] && s[i] <= '9' {
        digits_end(s, i + 1)
    } else {
        i
    }
}

/// Whether `word` occurs in `s` at `i`.
pub open spec fn word_at(s: Seq<char>, i: int, word: Seq<char>) -> bool {
    0 <= i && i + word.len() <= s.len() && s.subrange(i, i + word.len()) == word
}

/// The value of `"key"` in `json`, read the way the window reads its simple
/// payloads: a string up to its closing quote, `true` or `false`, or else the
/// run of digits (possibly empty) at the value's start.
pub open spec fn spec_json_get(json: Seq<char>, key: Seq<char>) -> Option<Seq<char>> {
    let pat = seq!['"'] + key + seq!['"'];
    match spec_find(json, pat) {
        None => None,
        Some(p) => {
            let i = skip_space(json, p + pat.len());
            if i >= json.len() || json[i] != ':' {
                None
            } else {
                let j = skip_space(json, i + 1);
                if j >= json.len() {
                    None
                } else if json[j] == '"' {
                    Some(json.subrange(j + 1, scan_to(json, j + 1, '"')))
                } else if json[j] == 't' || json[j] == 'f' {
                    if word_at(json, j, "true"@) {
                        Some("true"@)
                    } else if word_at(json, j, "false"@) {
                        Some("false"@)
                    } else {
                        None
                    }
                } else {
                    Some(json.subrange(j, digits_end(json, j)))
                }
            }
        },
    }
}

fn skip_space_exec(s: &[char], i: usize) -> (r: usize)
    requires
        i <= s@.len(),
    ensures
        r == skip_space(s@, i as int),
        i <= r <= s@.len(),
{
    let mut k = i;
    while k < s.len() && (s[k] == ' ' || s[k] == '\t' || s[k] == '\r' || s[k] == '\n')
        invariant
            i <= k <= s@.len(),
            skip_space(s@, i as int) == skip_space(s@, k as int),
        decreases s.len() - k,
    {
        k += 1;
    }
    k
}

fn scan_to_exec(s: &[char], i: usize, c: char) -> (r: usize)
    requires
        i <= s@.len(),
    ensures
        r == scan_to(s@, i as int, c),
        i <= r <= s@.len(),
{
    let mut k = i;
    while k < s.len() && s[k] != c
        invariant
            i <= k <= s@.len(),
            scan_to(s@, i as int, c) == scan_to(s@, k as int, c),
        decreases s.len() - k,
    {
        k += 1;
    }
    k
}

fn digits_end_exec(s: &[char], i: usize) -> (r: usize)
    requires
        i <= s@.len(),
    ensures
        r == digits_end(s@, i as int),
        i <= r <= s@.len(),
{
    let mut k = i;
    while k < s.len() && '0' <= s[k] && s[k] <= '9'
        invariant
            i <= k <= s@.len(),
            digits_end(s@, i as int) == digits_end(s@, k as int),
        decreases s.len() - k,
    {
        k += 1;
    }
    k
}

fn word_at_exec(s: &[char], i: usize, word: &str) -> (b: bool)
    ensures
        b == word_at(s@, i as int, word@),
{
    let w = chars_of(word);
    crate::text::matches_at(s, w.as_slice(), i)
}

/// Reads the value of `"key"` from a small JSON text.
pub fn json_get(json: &str, key: &str) -> (r: Option<String>)
    ensures
        r matches Some(v) ==> spec_json_get(json@, key@) == Some(v@),
        r is None ==> spec_json_get(json@, key@) is None,
{
    let s = chars_of(json);
    let mut pat: Vec<char> = Vec::new();
    pat.push('"');
    push_str(&mut pat, key);
    pat.push('"');
    assert(pat@ =~= seq!['"'] + key@ + seq!['"']);
    let p = match find(s.as_slice(), pat.as_slice()) {
        Some(p) => p,
        None => {
            return None;
        },
    };
    assert(crate::text::occurs_at(s@, pat@, p as int));
    assert(s@.len() == s.len());
    let i = skip_space_exec(s.as_slice(), p + pat.len());
    if i >= s.len() || s[i] != ':' {
        return None;
    }
    let j = skip_space_exec(s.as_slice(), i + 1);
    if j >= s.len() {
        return None;
    }
    if s[j] == '"' {
        let end = scan_to_exec(s.as_slice(), j + 1, '"');
        Some(string_of(crate::text::chars_range(s.as_slice(), j + 1, end).as_slice()))
    } else if s[j] == 't' || s[j] == 'f' {
        if word_at_exec(s.as_slice(), j, "true") {
            Some(String::from_str("true"))
        } else if word_at_exec(s.as_slice(), j, "false") {
            Some(String::from_str("false"))
        } else {
            None
        }
    } else {
        let end = digits_end_exec(s.as_slice(), j);
        Some(string_of(crate::text::chars_range(s.as_slice(), j, end).as_slice()))
    }
}


/// `s` with `"` and `\\` escaped by a backslash; nothing else is touched.
pub open spec fn spec_escape_json(s: Seq<char>) -> Seq<char>
    decreases s.len(),
{
    if s.len() == 0 {
        Seq::empty()
    } else {
        let c = s.last();
        spec_escape_json(s.drop_last()) + if c == '"' {
            seq!['\\', '"']
        } else if c == '\\' {
            seq!['\\', '\\']
        } else {
            seq![c]
        }
    }
}

fn push_escaped(out: &mut Vec<char>, s: &[char])
    ensures
        final(out)@ == old(out)@ + spec_escape_json(s@),
{
    let mut i: usize = 0;
    while i < s.len()
        invariant
            i <= s.len(),
            out@ == old(out)@ + spec_escape_json(s@.take(i as int)),
        decreases s.len() - i,
    {
        let c = s[i];
        proof {
            assert(s@.take(i + 1).drop_last() == s@.take(i as int));
        }
        if c == '"' {
            out.push('\\');
            out.push('"');
        } else if c == '\\' {
            out.push('\\');
            out.push('\\');
        } else {
            out.push(c);
        }
        i += 1;
    }
    assert(s@.take(s.len() as int) == s@);
}

/// Escapes `"` and `\\` for embedding `s` in a JSON string.
pub fn escape_json(s: &str) -> (r: String)
    ensures
        r@ == spec_escape_json(s@),
{
    let cs = chars_of(s);
    let mut out: Vec<char> = Vec::new();
    push_escaped(&mut out, cs.as_slice());
    string_of(out.as_slice())
}

/// `json` with the string value of `"key":"` replaced by the escaped `val`;
/// unchanged when the key (written without space before the value) is absent
/// or its value is unterminated.
pub open spec fn spec_set_json_string_value(json: Seq<char>, key: Seq<char>, val: Seq<char>) -> Seq<char> {
    let pat = seq!['"'] + key + "\":\""@;
    match spec_find(json, pat) {
        None => json,
        Some(pos) => {
            let start = pos + pat.len();
            let end = scan_to(json, start, '"');
            if end >= json.len() {
                json
            } else {
                json.subrange(0, start) + spec_escape_json(val) + json.subrange(end, json.len() as int)
            }
        },
    }
}

/// Rewrites the string value of `key` in a JSON text, in place.
pub fn set_json_string_value(json: &mut String, key: &str, val: &str)
    ensures
        final(json)@ == spec_set_json_string_value(old(json)@, key@, val@),
{
    let s = chars_of(json.as_str());
    let mut pat: Vec<char> = Vec::new();
    pat.push('"');
    push_str(&mut pat, key);
    push_str(&mut pat, "\":\"");
    assert(pat@ =~= seq!['"'] + key@ + "\":\""@);
    match find(s.as_slice(), pat.as_slice()) {
        None => {},
        Some(pos) => {
            assert(crate::text::occurs_at(s@, pat@, pos as int));
            assert(s@.len() == s.len());
            let start = pos + pat.len();
            let end = scan_to_exec(s.as_slice(), start, '"');
            if end < s.len() {
                let mut out = crate::text::chars_range(s.as_slice(), 0, start);
                let vs = chars_of(val);
                push_escaped(&mut out, vs.as_slice());
                push_chars(&mut out, crate::text::chars_range(s.as_slice(), end, s.len()).as_slice());
                *json = string_of(out.as_slice());
            }
        },
    }
}

/// The text between the first two quotes after `key`, as the relay and
/// installer read single settings from their configuration files.
pub open spec fn spec_quoted_after(contents: Seq<char>, key: Seq<char>) -> Option<Seq<char>> {
    match spec_find(contents, key) {
        None => None,
        Some(pos) => {
            let after = contents.subrange(pos + key.len(), contents.len() as int);
            let open = scan_to(after, 0, '"');
            if open >= after.len() {
                None
            } else {
                let close = scan_to(after, open + 1, '"');
                if close >= after.len() {
                    None
                } else {
                    Some(after.subrange(open + 1, close))
                }
            }
        },
    }
}

/// Reads the first quoted string after `key`.
pub fn quoted_after(contents: &str, key: &str) -> (r: Option<String>)
    ensures
        r matches Some(v) ==> spec_quoted_after(contents@, key@) == Some(v@),
        r is None ==> spec_quoted_after(contents@, key@) is None,
{
    let s = chars_of(contents);
    let k = chars_of(key);
    let pos = match find(s.as_slice(), k.as_slice()) {
        Some(p) => p,
        None => {
            return None;
        },
    };
    assert(crate::text::occurs_at(s@, k@, pos as int));
    assert(s@.len() == s.len());
    let after = crate::text::chars_from(s.as_slice(), pos + k.len());
    let open = scan_to_exec(after.as_slice(), 0, '"');
    if open >= after.len() {
        return None;
    }
    let close = scan_to_exec(after.as_slice(), open + 1, '"');
    if close >= after.len() {
        return None;
    }
    Some(string_of(crate::text::chars_range(after.as_slice(), open + 1, close).as_slice()))
}

/// The server address recorded in an installer's `server-config.json`.
pub fn extract_server_addr(contents: &str) -> (r: Option<String>)
    ensures
        r matches Some(v) ==> spec_quoted_after(contents@, "\"server_addr\":"@) == Some(v@),
        r is None ==> spec_quoted_after(contents@, "\"server_addr\":"@) is None,
{
    quoted_after(contents, "\"server_addr\":")
}

/// The backend URL recorded in the relay's `server-config.json`.
pub fn server_config_backend_url(contents: &str) -> (r: Option<String>)
    ensures
        r matches Some(v) ==> spec_quoted_after(contents@, "\"backend_url\":"@) == Some(v@),
        r is None ==> spec_quoted_after(contents@, "\"backend_url\":"@) is None,
{
    quoted_after(contents, "\"backend_url\":")
}

} // verus!
