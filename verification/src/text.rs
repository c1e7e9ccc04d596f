use vstd::prelude::*;
use vstd::utf8::{decode_utf8, encode_utf8, encode_utf8_decode_utf8, is_char_boundary, valid_utf8};
use vstd::string::StringSliceAdditionalSpecFns;

verus! {

/// Appends one character to a `String`.
///
/// Trusted: calls `String::push`, which std documents as appending the
/// given `char` to the end of the string.
#[verifier::external_body]
pub(crate) fn push_char(s: &mut String, c: char)
    ensures
        final(s)@ == old(s)@.push(c),
{
    s.push(c);
}

/// The characters of a string slice, in order.
pub fn chars_of(s: &str) -> (v: Vec<char>)
    ensures
        v@ == s@,
{
    let mut v: Vec<char> = Vec::new();
    for c in it: s.chars()
        invariant
            v@ == it.seq().take(it.index() as int),
            it.seq() == s@,
    {
        v.push(c);
    }
    v
}

/// Builds a `String` from a sequence of characters.
pub fn string_of(v: &[char]) -> (s: String)
    ensures
        s@ == v@,
{
    let mut s = String::new();
    let mut i: usize = 0;
    while i < v.len()
        invariant
            i <= v.len(),
            s@ == v@.take(i as int),
        decreases v.len() - i,
    {
        push_char(&mut s, v[i]);
        assert(v@.take(i + 1) == v@.take(i as int).push(v@[i as int]));
        i += 1;
    }
    assert(v@.take(v.len() as int) == v@);
    s
}


/// Rust's `char::is_whitespace`: the Unicode `White_Space` property.
pub open spec fn is_white_space(c: char) -> bool {
    let u = c as u32;
    (0x9 <= u && u <= 0xd) || u == 0x20 || u == 0x85 || u == 0xa0 || u == 0x1680 || (0x2000 <= u
        && u <= 0x200a) || u == 0x2028 || u == 0x2029 || u == 0x202f || u == 0x205f || u == 0x3000
}

pub fn is_whitespace(c: char) -> (b: bool)
    ensures
        b == is_white_space(c),
{
    let u = c as u32;
    (0x9 <= u && u <= 0xd) || u == 0x20 || u == 0x85 || u == 0xa0 || u == 0x1680 || (0x2000 <= u
        && u <= 0x200a) || u == 0x2028 || u == 0x2029 || u == 0x202f || u == 0x205f || u == 0x3000
}

/// Which characters a trim removes.
#[derive(Clone, Copy, PartialEq, Eq, Structural)]
pub enum Strip {
    /// Unicode white space, as `str::trim`.
    WhiteSpace,
    /// The NUL character, as `trim_matches('\0')`.
    Nul,
    /// The slash, as `trim_end_matches('/')`.
    Slash,
    /// The double quote, as `trim_matches('"')`.
    Quote,
}

pub open spec fn strips(k: Strip, c: char) -> bool {
    match k {
        Strip::WhiteSpace => is_white_space(c),
        Strip::Nul => c == '\0',
        Strip::Slash => c == '/',
        Strip::Quote => c == '"',
    }
}

fn strips_exec(k: Strip, c: char) -> (b: bool)
    ensures
        b == strips(k, c),
{
    match k {
        Strip::WhiteSpace => is_whitespace(c),
        Strip::Nul => c == '\0',
        Strip::Slash => c == '/',
        Strip::Quote => c == '"',
    }
}

/// `s` without its leading characters of kind `k`.
pub open spec fn strip_front(s: Seq<char>, k: Strip) -> Seq<char>
    decreases s.len(),
{
    if s.len() > 0 && strips(k, s[0]) {
        strip_front(s.drop_first(), k)
    } else {
        s
    }
}

/// `s` without its trailing characters of kind `k`.
pub open spec fn strip_back(s: Seq<char>, k: Strip) -> Seq<char>
    decreases s.len(),
{
    if s.len() > 0 && strips(k, s.last()) {
        strip_back(s.drop_last(), k)
    } else {
        s
    }
}

/// `s` without leading and trailing characters of kind `k`.
pub open spec fn trim_by(s: Seq<char>, k: Strip) -> Seq<char> {
    strip_back(strip_front(s, k), k)
}

/// Removes trailing characters of kind `k`.
pub fn trim_end_chars(v: &[char], k: Strip) -> (r: Vec<char>)
    ensures
        r@ == strip_back(v@, k),
{
    let mut end: usize = v.len();
    assert(v@.take(end as int) == v@);
    while end > 0 && strips_exec(k, v[end - 1])
        invariant
            end <= v.len(),
            strip_back(v@, k) == strip_back(v@.take(end as int), k),
        decreases end,
    {
        assert(v@.take(end as int).drop_last() == v@.take(end - 1));
        end -= 1;
    }
    let mut r: Vec<char> = Vec::new();
    let mut i: usize = 0;
    while i < end
        invariant
            i <= end <= v.len(),
            r@ == v@.take(i as int),
        decreases end - i,
    {
        r.push(v[i]);
        assert(v@.take(i + 1) == v@.take(i as int).push(v@[i as int]));
        i += 1;
    }
    r
}

/// Removes leading and trailing characters of kind `k`.
pub fn trim_chars(v: &[char], k: Strip) -> (r: Vec<char>)
    ensures
        r@ == trim_by(v@, k),
{
    let mut start: usize = 0;
    assert(v@.subrange(0, v.len() as int) == v@);
    while start < v.len() && strips_exec(k, v[start])
        invariant
            start <= v.len(),
            strip_front(v@, k) == strip_front(v@.subrange(start as int, v.len() as int), k),
        decreases v.len() - start,
    {
        assert(v@.subrange(start as int, v.len() as int).drop_first() == v@.subrange(
            start + 1,
            v.len() as int,
        ));
        start += 1;
    }
    let mut rest: Vec<char> = Vec::new();
    let mut i: usize = start;
    while i < v.len()
        invariant
            start <= i <= v.len(),
            rest@ == v@.subrange(start as int, i as int),
        decreases v.len() - i,
    {
        rest.push(v[i]);
        assert(v@.subrange(start as int, i + 1) == v@.subrange(start as int, i as int).push(
            v@[i as int],
        ));
        i += 1;
    }
    assert(strip_front(v@, k) == rest@);
    trim_end_chars(rest.as_slice(), k)
}

/// `Some(i)` for the first position at which `needle` occurs in `hay`.
pub open spec fn occurs_at<T>(hay: Seq<T>, needle: Seq<T>, i: int) -> bool {
    0 <= i && i + needle.len() <= hay.len() && hay.subrange(i, i + needle.len()) == needle
}

pub open spec fn spec_find<T>(hay: Seq<T>, needle: Seq<T>) -> Option<int> {
    if exists|i: int| occurs_at(hay, needle, i) {
        Some(choose|i: int| occurs_at(hay, needle, i) && forall|j: int| 0 <= j < i ==> !occurs_at(hay, needle, j))
    } else {
        None
    }
}

/// Whether `needle` occurs in `hay` at position `at`.
pub fn matches_at(hay: &[char], needle: &[char], at: usize) -> (b: bool)
    ensures
        b == occurs_at(hay@, needle@, at as int),
{
    if at > hay.len() || needle.len() > hay.len() - at {
        return false;
    }
    let mut j: usize = 0;
    while j < needle.len()
        invariant
            j <= needle.len(),
            at + needle.len() <= hay.len(),
            forall|m: int| 0 <= m < j ==> hay@[at + m] == needle@[m],
        decreases needle.len() - j,
    {
        if hay[at + j] != needle[j] {
            return false;
        }
        j += 1;
    }
    assert(hay@.subrange(at as int, at + needle.len()) =~= needle@);
    true
}

/// The first position at which `needle` occurs in `hay`, as `str::find`.
pub fn find(hay: &[char], needle: &[char]) -> (r: Option<usize>)
    ensures
        r matches Some(i) ==> occurs_at(hay@, needle@, i as int) && forall|j: int|
            0 <= j < i ==> !occurs_at(hay@, needle@, j),
        r is None ==> forall|j: int| !occurs_at(hay@, needle@, j),
        r matches Some(i) ==> spec_find(hay@, needle@) == Some(i as int),
        r is None ==> spec_find(hay@, needle@) is None,
{
    let mut i: usize = 0;
    while i < hay.len()
        invariant
            i <= hay.len(),
            forall|j: int| 0 <= j < i ==> !occurs_at(hay@, needle@, j),
        decreases hay.len() - i,
    {
        if matches_at(hay, needle, i) {
            proof {
                lemma_first_occurrence(hay@, needle@, i as int);
            }
            return Some(i);
        }
        i += 1;
    }
    if matches_at(hay, needle, i) {
        proof {
            lemma_first_occurrence(hay@, needle@, i as int);
        }
        return Some(i);
    }
    assert forall|j: int| !occurs_at(hay@, needle@, j) by {
        if 0 <= j && j + needle@.len() <= hay@.len() {
            assert(j <= i);
        }
    }
    None
}

pub(crate) proof fn lemma_first_occurrence<T>(hay: Seq<T>, needle: Seq<T>, i: int)
    requires
        occurs_at(hay, needle, i),
        forall|j: int| 0 <= j < i ==> !occurs_at(hay, needle, j),
    ensures
        spec_find(hay, needle) == Some(i),
{
    let c = choose|k: int|
        occurs_at(hay, needle, k) && forall|j: int| 0 <= j < k ==> !occurs_at(hay, needle, j);
    assert(occurs_at(hay, needle, c));
    if c < i {
    } else if c > i {
        assert(!occurs_at(hay, needle, i));
    }
}

/// The characters of `v` that satisfy `keep`, in order.
pub open spec fn only_ascii_digits(s: Seq<char>) -> Seq<char> {
    s.filter(|c: char| is_ascii_digit(c))
}

pub open spec fn is_ascii_digit(c: char) -> bool {
    '0' <= c && c <= '9'
}

/// Keeps only the ASCII digits of `v`.
pub fn filter_ascii_digits(v: &[char]) -> (r: Vec<char>)
    ensures
        r@ == only_ascii_digits(v@),
{
    let mut r: Vec<char> = Vec::new();
    let mut i: usize = 0;
    while i < v.len()
        invariant
            i <= v.len(),
            r@ == only_ascii_digits(v@.take(i as int)),
        decreases v.len() - i,
    {
        proof {
            reveal_with_fuel(Seq::filter, 1);
            assert(v@.take(i + 1).drop_last() == v@.take(i as int));
        }
        if '0' <= v[i] && v[i] <= '9' {
            r.push(v[i]);
        }
        i += 1;
    }
    assert(v@.take(v.len() as int) == v@);
    r
}

/// `s` without any occurrence of character `c`, as `replace(c, "")`.
pub open spec fn without_char(s: Seq<char>, c: char) -> Seq<char> {
    s.filter(|x: char| x != c)
}

pub fn remove_char(v: &[char], c: char) -> (r: Vec<char>)
    ensures
        r@ == without_char(v@, c),
{
    let mut r: Vec<char> = Vec::new();
    let mut i: usize = 0;
    while i < v.len()
        invariant
            i <= v.len(),
            r@ == without_char(v@.take(i as int), c),
        decreases v.len() - i,
    {
        proof {
            reveal_with_fuel(Seq::filter, 1);
            assert(v@.take(i + 1).drop_last() == v@.take(i as int));
        }
        if v[i] != c {
            r.push(v[i]);
        }
        i += 1;
    }
    assert(v@.take(v.len() as int) == v@);
    r
}

/// Decimal digits of `n`, most significant first, as `u64::to_string`.
pub open spec fn decimal(n: nat) -> Seq<char>
    decreases n,
{
    if n < 10 {
        seq![digit_char(n)]
    } else {
        decimal(n / 10).push(digit_char(n % 10))
    }
}

pub open spec fn digit_char(d: nat) -> char {
    ((d + 48) as u32) as char
}

/// Appends the decimal digits of `n` to `out`.
pub fn push_decimal(out: &mut Vec<char>, n: u64)
    ensures
        final(out)@ == old(out)@ + decimal(n as nat),
    decreases n,
{
    if n >= 10 {
        push_decimal(out, n / 10);
    }
    let d = (n % 10) as u8;
    let c = (d + 48) as char;
    assert(c == digit_char((n % 10) as nat));
    out.push(c);
}


/// Decodes UTF-8.
///
/// Trusted: calls `std::str::from_utf8`, which std documents as succeeding
/// exactly on valid UTF-8 and yielding the string those bytes encode.
#[verifier::external_body]
pub(crate) fn str_from_utf8(bytes: &[u8]) -> (r: Option<&str>)
    ensures
        r is Some <==> valid_utf8(bytes@),
        r matches Some(s) ==> s@ == decode_utf8(bytes@),
{
    std::str::from_utf8(bytes).ok()
}

/// The characters that `bytes` encode in UTF-8, or `None` when they are not UTF-8.
pub fn utf8_chars(bytes: &[u8]) -> (r: Option<Vec<char>>)
    ensures
        r is Some <==> valid_utf8(bytes@),
        r matches Some(v) ==> v@ == decode_utf8(bytes@),
{
    match str_from_utf8(bytes) {
        Some(s) => Some(chars_of(s)),
        None => None,
    }
}


/// The part of `s` after its last `c`, or all of `s` when it has none: the last
/// item of `split(c)`.
pub open spec fn after_last(s: Seq<char>, c: char) -> Seq<char>
    decreases s.len(),
{
    if s.len() == 0 {
        s
    } else if s.last() == c {
        Seq::empty()
    } else {
        after_last(s.drop_last(), c).push(s.last())
    }
}

/// The part of `s` before its first `c`, or all of `s` when it has none: the
/// first item of `split(c)`.
pub open spec fn before_first(s: Seq<char>, c: char) -> Seq<char>
    decreases s.len(),
{
    if s.len() == 0 {
        s
    } else if s[0] == c {
        Seq::empty()
    } else {
        seq![s[0]] + before_first(s.drop_first(), c)
    }
}

pub fn after_last_char(v: &[char], c: char) -> (r: Vec<char>)
    ensures
        r@ == after_last(v@, c),
{
    let mut start: usize = v.len();
    assert(v@.take(v.len() as int) == v@);
    assert(v@.subrange(v.len() as int, v.len() as int) =~= Seq::<char>::empty());
    assert(after_last(v@, c) + Seq::<char>::empty() =~= after_last(v@, c));
    while start > 0 && v[start - 1] != c
        invariant
            start <= v.len(),
            after_last(v@, c) == after_last(v@.take(start as int), c) + v@.subrange(
                start as int,
                v.len() as int,
            ),
        decreases start,
    {
        proof {
            let t = v@.take(start as int);
            assert(t.drop_last() == v@.take(start - 1));
            assert(v@.subrange(start - 1, v.len() as int) =~= seq![t.last()] + v@.subrange(
                start as int,
                v.len() as int,
            ));
            assert(after_last(t, c) == after_last(t.drop_last(), c).push(t.last()));
            assert(after_last(t.drop_last(), c).push(t.last()) + v@.subrange(
                start as int,
                v.len() as int,
            ) =~= after_last(t.drop_last(), c) + v@.subrange(start - 1, v.len() as int));
        }
        start -= 1;
    }
    proof {
        assert(v@.take(v.len() as int) == v@);
        if start > 0 {
            assert(after_last(v@.take(start as int), c) =~= Seq::<char>::empty());
        } else {
            assert(after_last(v@.take(0), c) =~= Seq::<char>::empty());
        }
        assert(after_last(v@, c) =~= v@.subrange(start as int, v.len() as int));
    }
    let mut r: Vec<char> = Vec::new();
    let mut i = start;
    while i < v.len()
        invariant
            start <= i <= v.len(),
            r@ == v@.subrange(start as int, i as int),
        decreases v.len() - i,
    {
        r.push(v[i]);
        assert(v@.subrange(start as int, i + 1) == v@.subrange(start as int, i as int).push(
            v@[i as int],
        ));
        i += 1;
    }
    r
}

pub fn before_first_char(v: &[char], c: char) -> (r: Vec<char>)
    ensures
        r@ == before_first(v@, c),
{
    let mut r: Vec<char> = Vec::new();
    let mut i: usize = 0;
    assert(v@.subrange(0, v.len() as int) == v@);
    while i < v.len() && v[i] != c
        invariant
            i <= v.len(),
            r@ == v@.take(i as int),
            before_first(v@, c) == r@ + before_first(v@.subrange(i as int, v.len() as int), c),
        decreases v.len() - i,
    {
        proof {
            let t = v@.subrange(i as int, v.len() as int);
            assert(t.drop_first() == v@.subrange(i + 1, v.len() as int));
            assert(v@.take(i + 1) == v@.take(i as int).push(v@[i as int]));
            assert(r@.push(v@[i as int]) + before_first(t.drop_first(), c) =~= r@ + (seq![t[0]]
                + before_first(t.drop_first(), c)));
        }
        r.push(v[i]);
        i += 1;
    }
    proof {
        let t = v@.subrange(i as int, v.len() as int);
        assert(before_first(t, c) =~= Seq::<char>::empty());
    }
    r
}

/// Whether `v` begins with `prefix`.
pub fn starts_with(v: &[char], prefix: &[char]) -> (b: bool)
    ensures
        b == (prefix@.len() <= v@.len() && v@.take(prefix@.len() as int) == prefix@),
{
    let m = matches_at(v, prefix, 0);
    proof {
        if prefix@.len() <= v@.len() {
            assert(v@.subrange(0, prefix@.len() as int) == v@.take(prefix@.len() as int));
        }
    }
    m
}

/// The characters of `v` from position `from` on.
pub fn chars_from(v: &[char], from: usize) -> (r: Vec<char>)
    requires
        from <= v@.len(),
    ensures
        r@ == v@.subrange(from as int, v@.len() as int),
{
    chars_range(v, from, v.len())
}

/// The characters `v[from..to]`.
pub fn chars_range(v: &[char], from: usize, to: usize) -> (r: Vec<char>)
    requires
        from <= to <= v@.len(),
    ensures
        r@ == v@.subrange(from as int, to as int),
{
    let mut r: Vec<char> = Vec::new();
    let mut i = from;
    while i < to
        invariant
            from <= i <= to <= v.len(),
            r@ == v@.subrange(from as int, i as int),
        decreases to - i,
    {
        r.push(v[i]);
        assert(v@.subrange(from as int, i + 1) == v@.subrange(from as int, i as int).push(
            v@[i as int],
        ));
        i += 1;
    }
    r
}

/// Appends the characters of `s` to `out`.
pub fn push_str(out: &mut Vec<char>, s: &str)
    ensures
        final(out)@ == old(out)@ + s@,
{
    let cs = chars_of(s);
    push_chars(out, cs.as_slice());
}

/// Appends the characters of `s` to `out`.
pub fn push_chars(out: &mut Vec<char>, s: &[char])
    ensures
        final(out)@ == old(out)@ + s@,
{
    let mut i: usize = 0;
    while i < s.len()
        invariant
            i <= s.len(),
            out@ == old(out)@ + s@.take(i as int),
        decreases s.len() - i,
    {
        out.push(s[i]);
        assert(s@.take(i + 1) == s@.take(i as int).push(s@[i as int]));
        i += 1;
    }
    assert(s@.take(s.len() as int) == s@);
}


pub open spec fn pow10(k: nat) -> nat
    decreases k,
{
    if k == 0 {
        1
    } else {
        10 * pow10((k - 1) as nat)
    }
}

proof fn lemma_decimal_facts(n: nat, k: nat)
    requires
        k >= 1,
        n < pow10(k),
        k == 1 || n >= pow10((k - 1) as nat),
    ensures
        decimal(n).len() == k,
        forall|i: int| 0 <= i < k ==> is_ascii_digit(#[trigger] decimal(n)[i]),
        n >= 1 ==> decimal(n)[0] != '0',
    decreases k,
{
    reveal_with_fuel(pow10, 2);
    if k == 1 {
        assert(n < 10);
    } else {
        let p = pow10((k - 2) as nat);
        assert(pow10((k - 1) as nat) == 10 * p);
        assert(pow10(k) == 10 * (10 * p));
        assert(n >= 10 * p);
        assert(n / 10 < 10 * p) by (nonlinear_arith)
            requires
                n < 10 * (10 * p),
        ;
        assert(n / 10 < pow10((k - 1) as nat));
        if k > 2 {
            assert(n / 10 >= pow10((k - 2) as nat)) by (nonlinear_arith)
                requires
                    n >= 10 * p,
                    p == pow10((k - 2) as nat),
            ;
        }
        lemma_decimal_facts(n / 10, (k - 1) as nat);
        assert(n >= 10);
        assert(n / 10 >= 1);
        let d = decimal(n);
        assert(d == decimal(n / 10).push(digit_char(n % 10)));
        assert forall|i: int| 0 <= i < k implies is_ascii_digit(#[trigger] d[i]) by {
            if i < k - 1 {
                assert(d[i] == decimal(n / 10)[i]);
            }
        }
    }
}

pub(crate) proof fn lemma_filter_digits_identity(s: Seq<char>)
    requires
        forall|i: int| 0 <= i < s.len() ==> is_ascii_digit(#[trigger] s[i]),
    ensures
        only_ascii_digits(s) == s,
    decreases s.len(),
{
    reveal_with_fuel(Seq::filter, 1);
    if s.len() > 0 {
        let t = s.drop_last();
        assert forall|i: int| 0 <= i < t.len() implies is_ascii_digit(#[trigger] t[i]) by {
            assert(t[i] == s[i]);
        }
        lemma_filter_digits_identity(t);
        assert(is_ascii_digit(s[s.len() - 1]));
        assert(t.push(s.last()) == s);
    } else {
        assert(only_ascii_digits(s) =~= s);
    }
}

/// A number from 100000000 to 999999999 prints as nine digits, the first not zero.
pub proof fn lemma_decimal_digits(n: nat)
    requires
        100000000 <= n < 1000000000,
    ensures
        decimal(n).len() == 9,
        forall|i: int| 0 <= i < 9 ==> is_ascii_digit(#[trigger] decimal(n)[i]),
        decimal(n)[0] != '0',
        only_ascii_digits(decimal(n)) == decimal(n),
{
    reveal_with_fuel(pow10, 10);
    lemma_decimal_facts(n, 9);
    lemma_filter_digits_identity(decimal(n));
}

proof fn lemma_decimal_len_bound(n: nat, k: nat)
    requires
        k >= 1,
        n < pow10(k),
    ensures
        decimal(n).len() <= k,
    decreases k,
{
    if n >= 10 {
        assert(k >= 2) by {
            if k == 1 {
                reveal_with_fuel(pow10, 2);
            }
        }
        assert(pow10(k) == 10 * pow10((k - 1) as nat));
        assert(n / 10 < pow10((k - 1) as nat));
        lemma_decimal_len_bound(n / 10, (k - 1) as nat);
    }
}

/// A 64-bit number has at most twenty decimal digits.
pub proof fn lemma_decimal_len(n: nat)
    requires
        n <= u64::MAX,
    ensures
        1 <= decimal(n).len() <= 20,
{
    reveal_with_fuel(pow10, 21);
    assert(pow10(20) == 100000000000000000000);
    lemma_decimal_len_bound(n, 20);
}

/// The length `str::len` reports for a text: that of its UTF-8 form.
pub open spec fn byte_len(s: Seq<char>) -> usize {
    encode_utf8(s).len() as usize
}

/// `a` followed by `b`.
pub fn cat(a: &str, b: &str) -> (r: String)
    ensures
        r@ == a@ + b@,
{
    let mut out = chars_of(a);
    push_str(&mut out, b);
    string_of(out.as_slice())
}

/// The decimal digits of `n`, as `n.to_string()`.
pub fn dec_string(n: u64) -> (r: String)
    ensures
        r@ == decimal(n as nat),
{
    let mut out: Vec<char> = Vec::new();
    push_decimal(&mut out, n);
    assert(out@ =~= decimal(n as nat));
    string_of(out.as_slice())
}

/// `s` cut to its first `n` bytes when it is longer, as `&s[0..n]`.
pub open spec fn trunc_bytes(s: Seq<char>, n: nat) -> Seq<char> {
    if encode_utf8(s).len() as usize > n {
        decode_utf8(encode_utf8(s).take(n as int))
    } else {
        s
    }
}

/// Whether `&s[0..n]` is defined when `s` is longer than `n` bytes: `n` falls
/// on a character boundary.
pub open spec fn cut_ok(s: Seq<char>, n: nat) -> bool {
    encode_utf8(s).len() as usize > n ==> is_char_boundary(encode_utf8(s), n as int)
}

pub fn byte_prefix(s: &str, n: usize) -> (r: String)
    requires
        cut_ok(s@, n as nat),
    ensures
        r@ == trunc_bytes(s@, n as nat),
{
    if s.len() > n {
        let parts = s.split_at(n);
        proof {
            encode_utf8_decode_utf8(parts.0@);
            assert(encode_utf8(s@).take(n as int) =~= encode_utf8(s@).subrange(0, n as int));
        }
        String::from_str(parts.0)
    } else {
        String::from_str(s)
    }
}

/// Whether two strings hold the same characters.
pub fn text_eq(a: &str, b: &str) -> (r: bool)
    ensures
        r == (a@ == b@),
{
    let x = chars_of(a);
    let y = chars_of(b);
    if x.len() != y.len() {
        return false;
    }
    let m = matches_at(x.as_slice(), y.as_slice(), 0);
    proof {
        assert(x@.subrange(0, y@.len() as int) == x@);
    }
    m
}

/// The code of a character with ASCII upper case letters made lower case.
pub open spec fn ascii_lower(c: char) -> u32 {
    let v = c as u32;
    if 65 <= v && v <= 90 {
        (v + 32) as u32
    } else {
        v
    }
}

/// Whether two texts are equal ignoring ASCII case, as
/// `str::eq_ignore_ascii_case`.
pub open spec fn spec_eq_ignore_ascii_case(a: Seq<char>, b: Seq<char>) -> bool {
    a.len() == b.len() && forall|i: int| 0 <= i < a.len() ==> ascii_lower(#[trigger] a[i]) == ascii_lower(b[i])
}

fn ascii_lower_exec(c: char) -> (l: u32)
    ensures
        l == ascii_lower(c),
{
    let v = c as u32;
    if 65 <= v && v <= 90 {
        v + 32
    } else {
        v
    }
}

pub fn eq_ignore_ascii_case(a: &str, b: &str) -> (r: bool)
    ensures
        r == spec_eq_ignore_ascii_case(a@, b@),
{
    let x = chars_of(a);
    let y = chars_of(b);
    if x.len() != y.len() {
        return false;
    }
    let mut i: usize = 0;
    while i < x.len()
        invariant
            i <= x.len(),
            x.len() == y.len(),
            x@ == a@,
            y@ == b@,
            forall|j: int| 0 <= j < i ==> ascii_lower(#[trigger] a@[j]) == ascii_lower(b@[j]),
        decreases x.len() - i,
    {
        if ascii_lower_exec(x[i]) != ascii_lower_exec(y[i]) {
            return false;
        }
        i += 1;
    }
    true
}

/// `s` trimmed of white space at both ends, as `str::trim`.
pub fn trimmed(s: &str) -> (r: String)
    ensures
        r@ == trim_by(s@, Strip::WhiteSpace),
{
    let t = trim_chars(chars_of(s).as_slice(), Strip::WhiteSpace);
    string_of(t.as_slice())
}

/// The UTF-16 code units of one character: itself below U+10000, otherwise
/// a high and a low surrogate.
pub open spec fn utf16_units(c: char) -> Seq<u16> {
    let v = (c as u32) as int;
    if v < 0x10000 {
        seq![v as u16]
    } else {
        seq![(0xD800 + (v - 0x10000) / 1024) as u16, (0xDC00 + (v - 0x10000) % 1024) as u16]
    }
}

/// The UTF-16 encoding of a text, as `str::encode_utf16` yields it.
pub open spec fn utf16_of(s: Seq<char>) -> Seq<u16>
    decreases s.len(),
{
    if s.len() == 0 {
        Seq::empty()
    } else {
        utf16_of(s.drop_last()) + utf16_units(s.last())
    }
}

/// The encoding of a prefix of a text is a prefix of the text's encoding.
pub proof fn lemma_utf16_prefix(s: Seq<char>, i: int)
    requires
        0 <= i <= s.len(),
    ensures
        utf16_of(s.take(i)).len() <= utf16_of(s).len(),
        forall|t: int|
            0 <= t < utf16_of(s.take(i)).len() ==> #[trigger] utf16_of(s.take(i))[t] == utf16_of(s)[t],
    decreases s.len() - i,
{
    if i < s.len() {
        lemma_utf16_prefix(s, i + 1);
        assert(s.take(i + 1).drop_last() =~= s.take(i));
        assert(utf16_of(s.take(i + 1)) == utf16_of(s.take(i)) + utf16_units(s[i]));
        assert forall|t: int| 0 <= t < utf16_of(s.take(i)).len() implies #[trigger] utf16_of(s.take(i))[t]
            == utf16_of(s)[t] by {
            assert(utf16_of(s.take(i + 1))[t] == utf16_of(s.take(i))[t]);
        }
    } else {
        assert(s.take(i) =~= s);
    }
}

/// A text as the NUL-terminated UTF-16 string that Windows calls take.
pub fn to_wide(s: &str) -> (w: Vec<u16>)
    ensures
        w@ == utf16_of(s@).push(0u16),
{
    let cs = chars_of(s);
    let mut w: Vec<u16> = Vec::new();
    let mut i: usize = 0;
    while i < cs.len()
        invariant
            i <= cs.len(),
            cs@ == s@,
            w@ == utf16_of(cs@.take(i as int)),
        decreases cs.len() - i,
    {
        let c = cs[i];
        let v = c as u32;
        proof {
            vstd::utf8::char_is_scalar(c);
        }
        proof {
            assert(cs@.take(i + 1).drop_last() =~= cs@.take(i as int));
        }
        if v < 0x10000 {
            w.push(v as u16);
        } else {
            let x = v - 0x10000;
            assert(x < 0x100000);
            w.push((0xD800 + x / 1024) as u16);
            w.push((0xDC00 + x % 1024) as u16);
        }
        proof {
            assert(w@ =~= utf16_of(cs@.take(i as int)) + utf16_units(c));
        }
        i += 1;
    }
    assert(cs@.take(cs.len() as int) =~= cs@);
    w.push(0);
    w
}

} // verus!
