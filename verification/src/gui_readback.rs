//! Why the window's settings file reads back as written: each key the
//! writer puts in it is found where the writer put it, and its value is
//! read whole.
use vstd::prelude::*;
use crate::gui::spec_gui_config_json;
use crate::json_text::{lemma_scan_stops, scan_to, skip_space, spec_escape_json, spec_json_get, word_at};
use crate::text::{lemma_first_occurrence, occurs_at, spec_find};

verus! {

/// A setting that the window writes and reads unchanged: no double quote
/// and no backslash in it, and not itself the name of one of the keys.
pub open spec fn plain_setting(v: Seq<char>) -> bool {
    &&& forall|i: int| 0 <= i < v.len() ==> v[i] != '"' && v[i] != '\\'
    &&& v != "backend_url"@
    &&& v != "relay_url"@
    &&& v != "environment"@
    &&& v != "start_with_windows"@
    &&& v != "device_name"@
}

/// How the window writes a flag.
pub open spec fn tf_text(start: bool) -> Seq<char> {
    if start {
        "true"@
    } else {
        "false"@
    }
}

/// The settings file as written, kept folded so that a proof about one part
/// of it does not unfold all of it.
#[verifier::opaque]
spec fn settings_text(b: Seq<char>, r: Seq<char>, e: Seq<char>, start: bool, d: Seq<char>) -> Seq<char> {
    spec_gui_config_json(b, r, e, start, d)
}

/// Where the piece that closes the backend URL and names the relay begins.
spec fn relay_at(b: Seq<char>) -> int {
    20 + b.len() as int
}

/// Where the piece that closes the relay address and names the environment
/// begins.
spec fn environment_at(b: Seq<char>, r: Seq<char>) -> int {
    relay_at(b) + 19 + r.len() as int
}

/// Where the piece that closes the environment and names the flag begins.
spec fn flag_at(b: Seq<char>, r: Seq<char>, e: Seq<char>) -> int {
    environment_at(b, r) + 21 + e.len() as int
}

/// Where the piece that names the device begins.
spec fn device_at(b: Seq<char>, r: Seq<char>, e: Seq<char>, start: bool) -> int {
    flag_at(b, r, e) + 27 + tf_text(start).len() as int
}

/// Where the closing piece begins.
spec fn end_at(b: Seq<char>, r: Seq<char>, e: Seq<char>, start: bool, d: Seq<char>) -> int {
    device_at(b, r, e, start) + 20 + d.len() as int
}

proof fn lemma_escape_plain(s: Seq<char>)
    requires
        forall|i: int| 0 <= i < s.len() ==> s[i] != '"' && s[i] != '\\',
    ensures
        spec_escape_json(s) == s,
    decreases s.len(),
{
    if s.len() > 0 {
        lemma_escape_plain(s.drop_last());
        assert(s.drop_last() + seq![s.last()] =~= s);
    }
}

/// The settings file, piece by piece.
#[verifier::rlimit(40)]
proof fn lemma_settings_layout(b: Seq<char>, r: Seq<char>, e: Seq<char>, start: bool, d: Seq<char>)
    requires
        plain_setting(b),
        plain_setting(r),
        plain_setting(e),
        plain_setting(d),
    ensures
        ({
            let c = settings_text(b, r, e, start, d);
            let p0 = "{\n  \"backend_url\": \""@;
            let p1 = "\",\n  \"relay_url\": \""@;
            let p2 = "\",\n  \"environment\": \""@;
            let p3 = "\",\n  \"start_with_windows\": "@;
            let p4 = ",\n  \"device_name\": \""@;
            let p5 = "\"\n}\n"@;
            let tf = tf_text(start);
            let rl = relay_at(b);
            let en = environment_at(b, r);
            let fl = flag_at(b, r, e);
            let dn = device_at(b, r, e, start);
            let nd = end_at(b, r, e, start, d);
            &&& p0.len() == 20 && p1.len() == 19 && p2.len() == 21 && p3.len() == 27
            &&& p4.len() == 20 && p5.len() == 4
            &&& (tf.len() == 4 || tf.len() == 5)
            &&& forall|i: int| 0 <= i < tf.len() ==> tf[i] != '"'
            &&& c.len() == nd + 4
            &&& forall|i: int| 0 <= i < 20 ==> c[i] == #[trigger] p0[i]
            &&& forall|i: int| 0 <= i < b.len() ==> c[20 + i] == #[trigger] b[i]
            &&& forall|i: int| 0 <= i < 19 ==> c[rl + i] == #[trigger] p1[i]
            &&& forall|i: int| 0 <= i < r.len() ==> c[rl + 19 + i] == #[trigger] r[i]
            &&& forall|i: int| 0 <= i < 21 ==> c[en + i] == #[trigger] p2[i]
            &&& forall|i: int| 0 <= i < e.len() ==> c[en + 21 + i] == #[trigger] e[i]
            &&& forall|i: int| 0 <= i < 27 ==> c[fl + i] == #[trigger] p3[i]
            &&& forall|i: int| 0 <= i < tf.len() ==> c[fl + 27 + i] == #[trigger] tf[i]
            &&& forall|i: int| 0 <= i < 20 ==> c[dn + i] == #[trigger] p4[i]
            &&& forall|i: int| 0 <= i < d.len() ==> c[dn + 20 + i] == #[trigger] d[i]
            &&& forall|i: int| 0 <= i < 4 ==> c[nd + i] == #[trigger] p5[i]
        }),
{
    let p0 = "{\n  \"backend_url\": \""@;
    let p1 = "\",\n  \"relay_url\": \""@;
    let p2 = "\",\n  \"environment\": \""@;
    let p3 = "\",\n  \"start_with_windows\": "@;
    let p4 = ",\n  \"device_name\": \""@;
    let p5 = "\"\n}\n"@;
    reveal_strlit("{\n  \"backend_url\": \"");
    reveal_strlit("\",\n  \"relay_url\": \"");
    reveal_strlit("\",\n  \"environment\": \"");
    reveal_strlit("\",\n  \"start_with_windows\": ");
    reveal_strlit(",\n  \"device_name\": \"");
    reveal_strlit("\"\n}\n");
    reveal_strlit("true");
    reveal_strlit("false");
    lemma_escape_plain(b);
    lemma_escape_plain(r);
    lemma_escape_plain(e);
    lemma_escape_plain(d);
    let tf = tf_text(start);
    let c = settings_text(b, r, e, start, d);
    reveal(settings_text);
    assert(c == p0 + b + p1 + r + p2 + e + p3 + tf + p4 + d + p5);
}

/// Where the values sit in the settings file.
proof fn lemma_settings_values(b: Seq<char>, r: Seq<char>, e: Seq<char>, start: bool, d: Seq<char>)
    requires
        plain_setting(b),
        plain_setting(r),
        plain_setting(e),
        plain_setting(d),
    ensures
        ({
            let c = settings_text(b, r, e, start, d);
            let tf = tf_text(start);
            let rl = relay_at(b);
            let en = environment_at(b, r);
            let fl = flag_at(b, r, e);
            let dn = device_at(b, r, e, start);
            let nd = end_at(b, r, e, start, d);
            &&& c.len() == nd + 4
            &&& (tf.len() == 4 || tf.len() == 5)
            &&& forall|i: int| 0 <= i < b.len() ==> c[20 + i] == #[trigger] b[i]
            &&& forall|i: int| 0 <= i < r.len() ==> c[rl + 19 + i] == #[trigger] r[i]
            &&& forall|i: int| 0 <= i < e.len() ==> c[en + 21 + i] == #[trigger] e[i]
            &&& forall|i: int| 0 <= i < tf.len() ==> c[fl + 27 + i] == #[trigger] tf[i]
            &&& forall|i: int| 0 <= i < d.len() ==> c[dn + 20 + i] == #[trigger] d[i]
        }),
{
    lemma_settings_layout(b, r, e, start, d);
}

/// A quote followed by a quote-free segment other than `k` and then a
/// quote does not start `"k"`.
proof fn lemma_quoted_segment_differs(c: Seq<char>, q: int, v: Seq<char>, k: Seq<char>)
    requires
        0 <= q,
        q + 1 + v.len() < c.len(),
        forall|i: int| 0 <= i < v.len() ==> c[q + 1 + i] == #[trigger] v[i],
        c[q + 1 + v.len()] == '"',
        forall|i: int| 0 <= i < v.len() ==> v[i] != '"',
        forall|i: int| 0 <= i < k.len() ==> k[i] != '"',
        v != k,
    ensures
        !occurs_at(c, seq!['"'] + k + seq!['"'], q),
{
    let pat = seq!['"'] + k + seq!['"'];
    if occurs_at(c, pat, q) {
        let w = c.subrange(q, q + k.len() + 2);
        if k.len() < v.len() {
            assert(w[k.len() as int + 1] == c[q + 1 + k.len()]);
            assert(c[q + 1 + k.len()] == v[k.len() as int]);
            assert(pat[k.len() as int + 1] == '"');
        } else if k.len() > v.len() {
            assert(w[v.len() as int + 1] == c[q + 1 + v.len()]);
            assert(pat[v.len() as int + 1] == k[v.len() as int]);
        } else {
            assert forall|i: int| 0 <= i < k.len() implies v[i] == k[i] by {
                assert(w[i + 1] == c[q + 1 + i]);
                assert(pat[i + 1] == k[i]);
            }
            assert(v =~= k);
        }
    }
}

/// Where the settings file has its double quotes.
#[verifier::rlimit(40)]
proof fn lemma_settings_quotes(b: Seq<char>, r: Seq<char>, e: Seq<char>, start: bool, d: Seq<char>, x: int)
    requires
        plain_setting(b),
        plain_setting(r),
        plain_setting(e),
        plain_setting(d),
        0 <= x < settings_text(b, r, e, start, d).len(),
        settings_text(b, r, e, start, d)[x] == '"',
    ensures
        ({
            let tf = tf_text(start);
            let rl = relay_at(b);
            let en = environment_at(b, r);
            let fl = flag_at(b, r, e);
            let dn = device_at(b, r, e, start);
            let nd = end_at(b, r, e, start, d);
            let c = settings_text(b, r, e, start, d);
            ||| x == 19int
            ||| x == rl + 18
            ||| x == en + 20
            ||| x == dn + 19
            ||| x == 4int && c[x + 1] == 'b'
            ||| x == rl + 5 && c[x + 1] == 'r'
            ||| x == en + 5 && c[x + 1] == 'e'
            ||| x == fl + 5 && c[x + 1] == 's'
            ||| x == dn + 4 && c[x + 1] == 'd'
            ||| x + 1 < c.len() && (c[x + 1] == ':' || c[x + 1] == ',' || c[x + 1] == '\n')
        }),
{
    let p0 = "{\n  \"backend_url\": \""@;
    let p1 = "\",\n  \"relay_url\": \""@;
    let p2 = "\",\n  \"environment\": \""@;
    let p3 = "\",\n  \"start_with_windows\": "@;
    let p4 = ",\n  \"device_name\": \""@;
    let p5 = "\"\n}\n"@;
    reveal_strlit("{\n  \"backend_url\": \"");
    reveal_strlit("\",\n  \"relay_url\": \"");
    reveal_strlit("\",\n  \"environment\": \"");
    reveal_strlit("\",\n  \"start_with_windows\": ");
    reveal_strlit(",\n  \"device_name\": \"");
    reveal_strlit("\"\n}\n");
    lemma_settings_layout(b, r, e, start, d);
    let c = settings_text(b, r, e, start, d);
    let tf = tf_text(start);
    let rl = relay_at(b);
    let en = environment_at(b, r);
    let fl = flag_at(b, r, e);
    let dn = device_at(b, r, e, start);
    let nd = end_at(b, r, e, start, d);
    if x < 20 {
        assert(c[x] == p0[x]);
        if x + 1 < 20 {
            assert(c[x + 1] == p0[x + 1]);
        }
    } else if x < 20 + b.len() {
        assert(c[x] == b[x - 20]);
    } else if x < rl + 19 {
        assert(c[x] == p1[x - rl]);
        if x + 1 < rl + 19 {
            assert(c[x + 1] == p1[x + 1 - rl]);
        }
    } else if x < rl + 19 + r.len() {
        assert(c[x] == r[x - (rl + 19)]);
    } else if x < en + 21 {
        assert(c[x] == p2[x - en]);
        if x + 1 < en + 21 {
            assert(c[x + 1] == p2[x + 1 - en]);
        }
    } else if x < en + 21 + e.len() {
        assert(c[x] == e[x - (en + 21)]);
    } else if x < fl + 27 {
        assert(c[x] == p3[x - fl]);
        if x + 1 < fl + 27 {
            assert(c[x + 1] == p3[x + 1 - fl]);
        }
    } else if x < fl + 27 + tf.len() {
        assert(c[x] == tf[x - (fl + 27)]);
    } else if x < dn + 20 {
        assert(c[x] == p4[x - dn]);
        if x + 1 < dn + 20 {
            assert(c[x + 1] == p4[x + 1 - dn]);
        }
    } else if x < dn + 20 + d.len() {
        assert(c[x] == d[x - (dn + 20)]);
    } else {
        assert(c[x] == p5[x - nd]);
        if x + 1 < nd + 4 {
            assert(c[x + 1] == p5[x + 1 - nd]);
        }
    }
}

/// The characters after the quotes and around the values, and the keys in
/// place.
#[verifier::rlimit(40)]
proof fn lemma_settings_marks(b: Seq<char>, r: Seq<char>, e: Seq<char>, start: bool, d: Seq<char>)
    requires
        plain_setting(b),
        plain_setting(r),
        plain_setting(e),
        plain_setting(d),
    ensures
        ({
            let c = settings_text(b, r, e, start, d);
            let tf = tf_text(start);
            let rl = relay_at(b);
            let en = environment_at(b, r);
            let fl = flag_at(b, r, e);
            let dn = device_at(b, r, e, start);
            let nd = end_at(b, r, e, start, d);
            &&& c[rl] == '"'
            &&& c[en] == '"'
            &&& c[fl] == '"'
            &&& c[nd] == '"'
            &&& c[17int] == ':'
            &&& c[18int] == ' '
            &&& c[19int] == '"'
            &&& c[rl + 16] == ':'
            &&& c[rl + 17] == ' '
            &&& c[rl + 18] == '"'
            &&& c[en + 18] == ':'
            &&& c[en + 19] == ' '
            &&& c[en + 20] == '"'
            &&& c[fl + 25] == ':'
            &&& c[fl + 26] == ' '
            &&& c[dn + 17] == ':'
            &&& c[dn + 18] == ' '
            &&& c[dn + 19] == '"'
            &&& c.subrange(4int, 17int) == "\"backend_url\""@
            &&& c.subrange(rl + 5, rl + 16) == "\"relay_url\""@
            &&& c.subrange(en + 5, en + 18) == "\"environment\""@
            &&& c.subrange(fl + 5, fl + 25) == "\"start_with_windows\""@
            &&& c.subrange(dn + 4, dn + 17) == "\"device_name\""@
        }),
{
    let p0 = "{\n  \"backend_url\": \""@;
    let p1 = "\",\n  \"relay_url\": \""@;
    let p2 = "\",\n  \"environment\": \""@;
    let p3 = "\",\n  \"start_with_windows\": "@;
    let p4 = ",\n  \"device_name\": \""@;
    let p5 = "\"\n}\n"@;
    reveal_strlit("{\n  \"backend_url\": \"");
    reveal_strlit("\",\n  \"relay_url\": \"");
    reveal_strlit("\",\n  \"environment\": \"");
    reveal_strlit("\",\n  \"start_with_windows\": ");
    reveal_strlit(",\n  \"device_name\": \"");
    reveal_strlit("\"\n}\n");
    reveal_strlit("\"backend_url\"");
    reveal_strlit("\"relay_url\"");
    reveal_strlit("\"environment\"");
    reveal_strlit("\"start_with_windows\"");
    reveal_strlit("\"device_name\"");
    lemma_settings_layout(b, r, e, start, d);
    let c = settings_text(b, r, e, start, d);
    let tf = tf_text(start);
    let rl = relay_at(b);
    let en = environment_at(b, r);
    let fl = flag_at(b, r, e);
    let dn = device_at(b, r, e, start);
    let nd = end_at(b, r, e, start, d);
    assert(c[rl] == p1[0]);
    assert(c[en] == p2[0]);
    assert(c[fl] == p3[0]);
    assert(c[nd] == p5[0]);
    assert(c[17int] == p0[17]);
    assert(c[18int] == p0[18]);
    assert(c[19int] == p0[19]);
    assert(c[rl + 16] == p1[16]);
    assert(c[rl + 17] == p1[17]);
    assert(c[rl + 18] == p1[18]);
    assert(c[en + 18] == p2[18]);
    assert(c[en + 19] == p2[19]);
    assert(c[en + 20] == p2[20]);
    assert(c[fl + 25] == p3[25]);
    assert(c[fl + 26] == p3[26]);
    assert(c[dn + 17] == p4[17]);
    assert(c[dn + 18] == p4[18]);
    assert(c[dn + 19] == p4[19]);
    assert forall|i: int| 0 <= i < 13 implies c.subrange(4int, 17int)[i] == "\"backend_url\""@[i] by {
        assert(c[4 + i] == p0[4 + i]);
    }
    assert(c.subrange(4int, 17int) =~= "\"backend_url\""@);
    assert forall|i: int| 0 <= i < 11 implies c.subrange(rl + 5, rl + 16)[i] == "\"relay_url\""@[i] by {
        assert(c[rl + 5 + i] == p1[5 + i]);
    }
    assert(c.subrange(rl + 5, rl + 16) =~= "\"relay_url\""@);
    assert forall|i: int| 0 <= i < 13 implies c.subrange(en + 5, en + 18)[i] == "\"environment\""@[i] by {
        assert(c[en + 5 + i] == p2[5 + i]);
    }
    assert(c.subrange(en + 5, en + 18) =~= "\"environment\""@);
    assert forall|i: int| 0 <= i < 20 implies c.subrange(fl + 5, fl + 25)[i] == "\"start_with_windows\""@[i] by {
        assert(c[fl + 5 + i] == p3[5 + i]);
    }
    assert(c.subrange(fl + 5, fl + 25) =~= "\"start_with_windows\""@);
    assert forall|i: int| 0 <= i < 13 implies c.subrange(dn + 4, dn + 17)[i] == "\"device_name\""@[i] by {
        assert(c[dn + 4 + i] == p4[4 + i]);
    }
    assert(c.subrange(dn + 4, dn + 17) =~= "\"device_name\""@);
}

/// The `backend_url` key is first found where the writer put it.
#[verifier::rlimit(60)]
proof fn lemma_find_backend_url(b: Seq<char>, r: Seq<char>, e: Seq<char>, start: bool, d: Seq<char>)
    requires
        plain_setting(b),
        plain_setting(r),
        plain_setting(e),
        plain_setting(d),
    ensures
        spec_find(settings_text(b, r, e, start, d), "\"backend_url\""@) == Some(4int),
{
    let pat = "\"backend_url\""@;
    let k = "backend_url"@;
    reveal_strlit("\"backend_url\"");
    reveal_strlit("backend_url");
    lemma_settings_values(b, r, e, start, d);
    lemma_settings_marks(b, r, e, start, d);
    let c = settings_text(b, r, e, start, d);
    let tf = tf_text(start);
    let rl = relay_at(b);
    let en = environment_at(b, r);
    let fl = flag_at(b, r, e);
    let dn = device_at(b, r, e, start);
    let nd = end_at(b, r, e, start, d);
    assert(pat =~= seq!['"'] + k + seq!['"']);
    let t = 4int;
    assert forall|j: int| 0 <= j < t implies !occurs_at(c, pat, j) by {
        if occurs_at(c, pat, j) {
            let w = c.subrange(j, j + 13);
            assert(w[0] == c[j] && w[1] == c[j + 1]);
            lemma_settings_quotes(b, r, e, start, d, j);
        }
    }
    lemma_first_occurrence(c, pat, t);
}

/// The `relay_url` key is first found where the writer put it.
#[verifier::rlimit(60)]
proof fn lemma_find_relay_url(b: Seq<char>, r: Seq<char>, e: Seq<char>, start: bool, d: Seq<char>)
    requires
        plain_setting(b),
        plain_setting(r),
        plain_setting(e),
        plain_setting(d),
    ensures
        spec_find(settings_text(b, r, e, start, d), "\"relay_url\""@) == Some(relay_at(b) + 5),
{
    let pat = "\"relay_url\""@;
    let k = "relay_url"@;
    reveal_strlit("\"relay_url\"");
    reveal_strlit("relay_url");
    lemma_settings_values(b, r, e, start, d);
    lemma_settings_marks(b, r, e, start, d);
    let c = settings_text(b, r, e, start, d);
    let tf = tf_text(start);
    let rl = relay_at(b);
    let en = environment_at(b, r);
    let fl = flag_at(b, r, e);
    let dn = device_at(b, r, e, start);
    let nd = end_at(b, r, e, start, d);
    assert(pat =~= seq!['"'] + k + seq!['"']);
    let t = rl + 5;
    assert forall|j: int| 0 <= j < t implies !occurs_at(c, pat, j) by {
        if occurs_at(c, pat, j) {
            let w = c.subrange(j, j + 11);
            assert(w[0] == c[j] && w[1] == c[j + 1]);
            lemma_settings_quotes(b, r, e, start, d, j);
            if j == 19int {
                lemma_quoted_segment_differs(c, j, b, k);
            }
        }
    }
    lemma_first_occurrence(c, pat, t);
}

/// The `environment` key is first found where the writer put it.
#[verifier::rlimit(60)]
proof fn lemma_find_environment(b: Seq<char>, r: Seq<char>, e: Seq<char>, start: bool, d: Seq<char>)
    requires
        plain_setting(b),
        plain_setting(r),
        plain_setting(e),
        plain_setting(d),
    ensures
        spec_find(settings_text(b, r, e, start, d), "\"environment\""@) == Some(environment_at(b, r) + 5),
{
    let pat = "\"environment\""@;
    let k = "environment"@;
    reveal_strlit("\"environment\"");
    reveal_strlit("environment");
    lemma_settings_values(b, r, e, start, d);
    lemma_settings_marks(b, r, e, start, d);
    let c = settings_text(b, r, e, start, d);
    let tf = tf_text(start);
    let rl = relay_at(b);
    let en = environment_at(b, r);
    let fl = flag_at(b, r, e);
    let dn = device_at(b, r, e, start);
    let nd = end_at(b, r, e, start, d);
    assert(pat =~= seq!['"'] + k + seq!['"']);
    let t = en + 5;
    assert forall|j: int| 0 <= j < t implies !occurs_at(c, pat, j) by {
        if occurs_at(c, pat, j) {
            let w = c.subrange(j, j + 13);
            assert(w[0] == c[j] && w[1] == c[j + 1]);
            lemma_settings_quotes(b, r, e, start, d, j);
            if j == 19int {
                lemma_quoted_segment_differs(c, j, b, k);
            } else if j == rl + 18 {
                lemma_quoted_segment_differs(c, j, r, k);
            }
        }
    }
    lemma_first_occurrence(c, pat, t);
}

/// The `start_with_windows` key is first found where the writer put it.
#[verifier::rlimit(60)]
proof fn lemma_find_start_with_windows(b: Seq<char>, r: Seq<char>, e: Seq<char>, start: bool, d: Seq<char>)
    requires
        plain_setting(b),
        plain_setting(r),
        plain_setting(e),
        plain_setting(d),
    ensures
        spec_find(settings_text(b, r, e, start, d), "\"start_with_windows\""@) == Some(flag_at(b, r, e) + 5),
{
    let pat = "\"start_with_windows\""@;
    let k = "start_with_windows"@;
    reveal_strlit("\"start_with_windows\"");
    reveal_strlit("start_with_windows");
    lemma_settings_values(b, r, e, start, d);
    lemma_settings_marks(b, r, e, start, d);
    let c = settings_text(b, r, e, start, d);
    let tf = tf_text(start);
    let rl = relay_at(b);
    let en = environment_at(b, r);
    let fl = flag_at(b, r, e);
    let dn = device_at(b, r, e, start);
    let nd = end_at(b, r, e, start, d);
    assert(pat =~= seq!['"'] + k + seq!['"']);
    let t = fl + 5;
    assert forall|j: int| 0 <= j < t implies !occurs_at(c, pat, j) by {
        if occurs_at(c, pat, j) {
            let w = c.subrange(j, j + 20);
            assert(w[0] == c[j] && w[1] == c[j + 1]);
            lemma_settings_quotes(b, r, e, start, d, j);
            if j == 19int {
                lemma_quoted_segment_differs(c, j, b, k);
            } else if j == rl + 18 {
                lemma_quoted_segment_differs(c, j, r, k);
            } else if j == en + 20 {
                lemma_quoted_segment_differs(c, j, e, k);
            }
        }
    }
    lemma_first_occurrence(c, pat, t);
}

/// The `device_name` key is first found where the writer put it.
#[verifier::rlimit(60)]
proof fn lemma_find_device_name(b: Seq<char>, r: Seq<char>, e: Seq<char>, start: bool, d: Seq<char>)
    requires
        plain_setting(b),
        plain_setting(r),
        plain_setting(e),
        plain_setting(d),
    ensures
        spec_find(settings_text(b, r, e, start, d), "\"device_name\""@) == Some(device_at(b, r, e, start) + 4),
{
    let pat = "\"device_name\""@;
    let k = "device_name"@;
    reveal_strlit("\"device_name\"");
    reveal_strlit("device_name");
    lemma_settings_values(b, r, e, start, d);
    lemma_settings_marks(b, r, e, start, d);
    let c = settings_text(b, r, e, start, d);
    let tf = tf_text(start);
    let rl = relay_at(b);
    let en = environment_at(b, r);
    let fl = flag_at(b, r, e);
    let dn = device_at(b, r, e, start);
    let nd = end_at(b, r, e, start, d);
    assert(pat =~= seq!['"'] + k + seq!['"']);
    let t = dn + 4;
    assert forall|j: int| 0 <= j < t implies !occurs_at(c, pat, j) by {
        if occurs_at(c, pat, j) {
            let w = c.subrange(j, j + 13);
            assert(w[0] == c[j] && w[1] == c[j + 1]);
            lemma_settings_quotes(b, r, e, start, d, j);
            if j == 19int {
                lemma_quoted_segment_differs(c, j, b, k);
            } else if j == rl + 18 {
                lemma_quoted_segment_differs(c, j, r, k);
            } else if j == en + 20 {
                lemma_quoted_segment_differs(c, j, e, k);
            }
        }
    }
    lemma_first_occurrence(c, pat, t);
}

/// The value of `"k"` when the key is first found at `t` and followed by
/// `: "v"`.
proof fn lemma_read_string(c: Seq<char>, t: int, k: Seq<char>, v: Seq<char>)
    requires
        spec_find(c, seq!['"'] + k + seq!['"']) == Some(t),
        0 <= t,
        t + k.len() + 5 + v.len() < c.len(),
        c[t + k.len() + 2] == ':',
        c[t + k.len() + 3] == ' ',
        c[t + k.len() + 4] == '"',
        forall|i: int| 0 <= i < v.len() ==> c[t + k.len() + 5 + i] == #[trigger] v[i],
        c[t + k.len() + 5 + v.len()] == '"',
        forall|i: int| 0 <= i < v.len() ==> v[i] != '"',
    ensures
        spec_json_get(c, k) == Some(v),
{
    let pat = seq!['"'] + k + seq!['"'];
    let i = t + k.len() + 2;
    let j = i + 2;
    assert(pat.len() == k.len() + 2);
    assert(skip_space(c, i) == i);
    assert(skip_space(c, j) == j);
    assert(skip_space(c, i + 1) == j);
    assert forall|m: int| j + 1 <= m < j + 1 + v.len() implies c[m] != '"' by {
        assert(c[t + k.len() + 5 + (m - j - 1)] == v[m - j - 1]);
    }
    lemma_scan_stops(c, j + 1, j + 1 + v.len(), '"');
    assert(scan_to(c, j + 1, '"') == j + 1 + v.len());
    assert(c.subrange(j + 1, j + 1 + v.len()) =~= v);
}

/// The value of `"k"` when the key is first found at `t` and followed by
/// `: true` or `: false`.
proof fn lemma_read_flag(c: Seq<char>, t: int, k: Seq<char>, start: bool)
    requires
        spec_find(c, seq!['"'] + k + seq!['"']) == Some(t),
        0 <= t,
        t + k.len() + 4 + tf_text(start).len() <= c.len(),
        c[t + k.len() + 2] == ':',
        c[t + k.len() + 3] == ' ',
        forall|i: int|
            0 <= i < tf_text(start).len() ==> c[t + k.len() + 4 + i] == #[trigger] tf_text(start)[i],
    ensures
        spec_json_get(c, k) == Some(tf_text(start)),
{
    reveal_strlit("true");
    reveal_strlit("false");
    let pat = seq!['"'] + k + seq!['"'];
    let i = t + k.len() + 2;
    let j = i + 2;
    let tf = tf_text(start);
    assert(pat.len() == k.len() + 2);
    assert(tf[0] == c[j + 0]);
    assert(skip_space(c, i) == i);
    assert(skip_space(c, j) == j);
    assert(skip_space(c, i + 1) == j);
    if start {
        assert(c.subrange(j, j + 4) =~= "true"@);
    } else {
        assert(c.subrange(j, j + 4)[0] == c[j]);
        assert(!word_at(c, j, "true"@));
        assert(c.subrange(j, j + 5) =~= "false"@);
    }
}

/// The `backend_url` value read from the settings file is the one written.
#[verifier::rlimit(80)]
proof fn lemma_reads_backend_url(b: Seq<char>, r: Seq<char>, e: Seq<char>, start: bool, d: Seq<char>)
    requires
        plain_setting(b),
        plain_setting(r),
        plain_setting(e),
        plain_setting(d),
    ensures
        spec_json_get(settings_text(b, r, e, start, d), "backend_url"@) == Some(b),
{
    lemma_settings_values(b, r, e, start, d);
    lemma_settings_marks(b, r, e, start, d);
    lemma_find_backend_url(b, r, e, start, d);
    let c = settings_text(b, r, e, start, d);
    let tf = tf_text(start);
    let rl = relay_at(b);
    let en = environment_at(b, r);
    let fl = flag_at(b, r, e);
    let dn = device_at(b, r, e, start);
    let nd = end_at(b, r, e, start, d);
    reveal_strlit("backend_url");
    reveal_strlit("\"backend_url\"");
    assert("\"backend_url\""@ =~= seq!['"'] + "backend_url"@ + seq!['"']);
    lemma_read_string(c, 4int, "backend_url"@, b);
}

/// The `relay_url` value read from the settings file is the one written.
#[verifier::rlimit(80)]
proof fn lemma_reads_relay_url(b: Seq<char>, r: Seq<char>, e: Seq<char>, start: bool, d: Seq<char>)
    requires
        plain_setting(b),
        plain_setting(r),
        plain_setting(e),
        plain_setting(d),
    ensures
        spec_json_get(settings_text(b, r, e, start, d), "relay_url"@) == Some(r),
{
    lemma_settings_values(b, r, e, start, d);
    lemma_settings_marks(b, r, e, start, d);
    lemma_find_relay_url(b, r, e, start, d);
    let c = settings_text(b, r, e, start, d);
    let tf = tf_text(start);
    let rl = relay_at(b);
    let en = environment_at(b, r);
    let fl = flag_at(b, r, e);
    let dn = device_at(b, r, e, start);
    let nd = end_at(b, r, e, start, d);
    reveal_strlit("relay_url");
    reveal_strlit("\"relay_url\"");
    assert("\"relay_url\""@ =~= seq!['"'] + "relay_url"@ + seq!['"']);
    lemma_read_string(c, rl + 5, "relay_url"@, r);
}

/// The `environment` value read from the settings file is the one written.
#[verifier::rlimit(80)]
proof fn lemma_reads_environment(b: Seq<char>, r: Seq<char>, e: Seq<char>, start: bool, d: Seq<char>)
    requires
        plain_setting(b),
        plain_setting(r),
        plain_setting(e),
        plain_setting(d),
    ensures
        spec_json_get(settings_text(b, r, e, start, d), "environment"@) == Some(e),
{
    lemma_settings_values(b, r, e, start, d);
    lemma_settings_marks(b, r, e, start, d);
    lemma_find_environment(b, r, e, start, d);
    let c = settings_text(b, r, e, start, d);
    let tf = tf_text(start);
    let rl = relay_at(b);
    let en = environment_at(b, r);
    let fl = flag_at(b, r, e);
    let dn = device_at(b, r, e, start);
    let nd = end_at(b, r, e, start, d);
    reveal_strlit("environment");
    reveal_strlit("\"environment\"");
    assert("\"environment\""@ =~= seq!['"'] + "environment"@ + seq!['"']);
    lemma_read_string(c, en + 5, "environment"@, e);
}

/// The `start_with_windows` value read from the settings file is the one written.
#[verifier::rlimit(80)]
proof fn lemma_reads_start_with_windows(b: Seq<char>, r: Seq<char>, e: Seq<char>, start: bool, d: Seq<char>)
    requires
        plain_setting(b),
        plain_setting(r),
        plain_setting(e),
        plain_setting(d),
    ensures
        spec_json_get(settings_text(b, r, e, start, d), "start_with_windows"@) == Some(tf_text(start)),
{
    lemma_settings_values(b, r, e, start, d);
    lemma_settings_marks(b, r, e, start, d);
    lemma_find_start_with_windows(b, r, e, start, d);
    let c = settings_text(b, r, e, start, d);
    let tf = tf_text(start);
    let rl = relay_at(b);
    let en = environment_at(b, r);
    let fl = flag_at(b, r, e);
    let dn = device_at(b, r, e, start);
    let nd = end_at(b, r, e, start, d);
    reveal_strlit("start_with_windows");
    reveal_strlit("\"start_with_windows\"");
    assert("\"start_with_windows\""@ =~= seq!['"'] + "start_with_windows"@ + seq!['"']);
    lemma_read_flag(c, fl + 5, "start_with_windows"@, start);
}

/// The `device_name` value read from the settings file is the one written.
#[verifier::rlimit(80)]
proof fn lemma_reads_device_name(b: Seq<char>, r: Seq<char>, e: Seq<char>, start: bool, d: Seq<char>)
    requires
        plain_setting(b),
        plain_setting(r),
        plain_setting(e),
        plain_setting(d),
    ensures
        spec_json_get(settings_text(b, r, e, start, d), "device_name"@) == Some(d),
{
    lemma_settings_values(b, r, e, start, d);
    lemma_settings_marks(b, r, e, start, d);
    lemma_find_device_name(b, r, e, start, d);
    let c = settings_text(b, r, e, start, d);
    let tf = tf_text(start);
    let rl = relay_at(b);
    let en = environment_at(b, r);
    let fl = flag_at(b, r, e);
    let dn = device_at(b, r, e, start);
    let nd = end_at(b, r, e, start, d);
    reveal_strlit("device_name");
    reveal_strlit("\"device_name\"");
    assert("\"device_name\""@ =~= seq!['"'] + "device_name"@ + seq!['"']);
    lemma_read_string(c, dn + 4, "device_name"@, d);
}

/// The settings the window saves are the settings it reads back: each of
/// the backend URL, relay address, environment, start-with-Windows flag and
/// device name read from the written settings file is the one written, for
/// texts without double quotes or backslashes that are not themselves key
/// names.
pub proof fn lemma_saved_settings_read_back(b: Seq<char>, r: Seq<char>, e: Seq<char>, start: bool, d: Seq<char>)
    requires
        plain_setting(b),
        plain_setting(r),
        plain_setting(e),
        plain_setting(d),
    ensures
        spec_json_get(spec_gui_config_json(b, r, e, start, d), "backend_url"@) == Some(b),
        spec_json_get(spec_gui_config_json(b, r, e, start, d), "relay_url"@) == Some(r),
        spec_json_get(spec_gui_config_json(b, r, e, start, d), "environment"@) == Some(e),
        spec_json_get(spec_gui_config_json(b, r, e, start, d), "start_with_windows"@)
            == Some(tf_text(start)),
        spec_json_get(spec_gui_config_json(b, r, e, start, d), "device_name"@) == Some(d),
{
    assert(spec_gui_config_json(b, r, e, start, d) == settings_text(b, r, e, start, d)) by {
        reveal(settings_text);
    }
    lemma_reads_backend_url(b, r, e, start, d);
    lemma_reads_relay_url(b, r, e, start, d);
    lemma_reads_environment(b, r, e, start, d);
    lemma_reads_start_with_windows(b, r, e, start, d);
    lemma_reads_device_name(b, r, e, start, d);
}

} // verus!
