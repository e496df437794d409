//! Text primitives shared by every parser in the crate.
//!
//! Each executable helper here is tied to a spec function over `Seq<char>`, so
//! the parsers built on top of them can state their contracts in terms of
//! trimming, ASCII case folding, prefixes and substrings rather than in terms
//! of loops.
use vstd::prelude::*;

verus! {

/// The Unicode `White_Space` property, which is what `str::trim` and
/// `char::is_whitespace` go by.
pub open spec fn is_space(c: char) -> bool {
    ||| c == ' '
    ||| ('\t' <= c && c <= '\r')
    ||| c == '\u{85}'
    ||| c == '\u{A0}'
    ||| c == '\u{1680}'
    ||| ('\u{2000}' <= c && c <= '\u{200A}')
    ||| c == '\u{2028}'
    ||| c == '\u{2029}'
    ||| c == '\u{202F}'
    ||| c == '\u{205F}'
    ||| c == '\u{3000}'
}

pub open spec fn is_digit(c: char) -> bool {
    '0' <= c && c <= '9'
}

/// ASCII lowercase of one character; everything outside `A..=Z` is kept.
pub open spec fn lower_char(c: char) -> char {
    if 'A' <= c && c <= 'Z' {
        ((c as u32) + 32) as char
    } else {
        c
    }
}

pub open spec fn lower(s: Seq<char>) -> Seq<char> {
    s.map_values(|c: char| lower_char(c))
}

pub open spec fn trim_start(s: Seq<char>) -> Seq<char>
    decreases s.len(),
{
    if s.len() > 0 && is_space(s[0]) {
        trim_start(s.drop_first())
    } else {
        s
    }
}

pub open spec fn trim_end(s: Seq<char>) -> Seq<char>
    decreases s.len(),
{
    if s.len() > 0 && is_space(s.last()) {
        trim_end(s.drop_last())
    } else {
        s
    }
}

/// What `str::trim` leaves of a string.
pub open spec fn trim(s: Seq<char>) -> Seq<char> {
    trim_end(trim_start(s))
}

pub open spec fn starts_with(s: Seq<char>, p: Seq<char>) -> bool {
    p.len() <= s.len() && s.subrange(0, p.len() as int) == p
}

pub open spec fn ends_with(s: Seq<char>, p: Seq<char>) -> bool {
    p.len() <= s.len() && s.subrange(s.len() - p.len(), s.len() as int) == p
}

pub open spec fn occurs_at(s: Seq<char>, n: Seq<char>, i: int) -> bool {
    0 <= i && i + n.len() <= s.len() && s.subrange(i, i + n.len()) == n
}

/// Whether `n` occurs in `s` as a run of consecutive characters.
pub open spec fn contains(s: Seq<char>, n: Seq<char>) -> bool {
    exists|i: int| occurs_at(s, n, i)
}

/// Position of the first `c` in `s`, or the length of `s` when there is none.
pub open spec fn first_of(s: Seq<char>, c: char) -> nat
    decreases s.len(),
{
    if s.len() == 0 {
        0
    } else if s[0] == c {
        0
    } else {
        1 + first_of(s.drop_first(), c)
    }
}

/// `str::eq_ignore_ascii_case`.
pub open spec fn eq_ignore_case(a: Seq<char>, b: Seq<char>) -> bool {
    lower(a) == lower(b)
}

pub proof fn lemma_first_of(s: Seq<char>, c: char, k: int)
    requires
        0 <= k <= s.len(),
        forall|i: int| 0 <= i < k ==> s[i] != c,
        k == s.len() || s[k] == c,
    ensures
        first_of(s, c) == k,
    decreases s.len(),
{
    if s.len() > 0 && s[0] != c {
        assert forall|i: int| 0 <= i < k - 1 implies s.drop_first()[i] != c by {
            assert(s.drop_first()[i] == s[i + 1]);
        }
        lemma_first_of(s.drop_first(), c, k - 1);
    }
}

pub proof fn lemma_trim_start(s: Seq<char>, k: int)
    requires
        0 <= k <= s.len(),
        forall|i: int| 0 <= i < k ==> is_space(s[i]),
        k == s.len() || !is_space(s[k]),
    ensures
        trim_start(s) == s.subrange(k, s.len() as int),
    decreases s.len(),
{
    if k == 0 {
        assert(s.subrange(0, s.len() as int) =~= s);
    } else {
        let t = s.drop_first();
        assert forall|i: int| 0 <= i < k - 1 implies is_space(t[i]) by {
            assert(t[i] == s[i + 1]);
        }
        lemma_trim_start(t, k - 1);
        assert(t.subrange(k - 1, t.len() as int) =~= s.subrange(k, s.len() as int));
    }
}

pub proof fn lemma_trim_end(s: Seq<char>, k: int)
    requires
        0 <= k <= s.len(),
        forall|i: int| k <= i < s.len() ==> is_space(s[i]),
        k == 0 || !is_space(s[k - 1]),
    ensures
        trim_end(s) == s.subrange(0, k),
    decreases s.len(),
{
    if k == s.len() {
        assert(s.subrange(0, s.len() as int) =~= s);
    } else {
        let t = s.drop_last();
        assert forall|i: int| k <= i < t.len() implies is_space(t[i]) by {
            assert(t[i] == s[i]);
        }
        lemma_trim_end(t, k);
        assert(t.subrange(0, k) =~= s.subrange(0, k));
    }
}

/// A string whose characters are all ASCII lowercase letters, digits and
/// punctuation is its own lowercase, and contains no white space.
pub open spec fn plain_word(s: Seq<char>) -> bool {
    forall|i: int| 0 <= i < s.len() ==> ('!' <= #[trigger] s[i] && s[i] <= '@') || ('[' <= s[i] && s[i] <= '~')
}

pub proof fn lemma_plain_word(s: Seq<char>)
    requires
        plain_word(s),
    ensures
        lower(s) == s,
        trim(s) == s,
        forall|i: int| 0 <= i < s.len() ==> !is_space(#[trigger] s[i]),
{
    assert(lower(s) =~= s);
    if s.len() == 0 {
    } else {
        lemma_trim_start(s, 0);
        assert(s.subrange(0, s.len() as int) =~= s);
        lemma_trim_end(s, s.len() as int);
    }
}

/// Appends one character; `String::push`.
#[verifier::external_body]
pub fn push_char(s: &mut String, c: char)
    ensures
        final(s)@ == old(s)@.push(c),
{
    s.push(c);
}

pub fn char_is_space(c: char) -> (r: bool)
    ensures
        r == is_space(c),
{
    c == ' ' || ('\t' <= c && c <= '\r') || c == '\u{85}' || c == '\u{A0}' || c == '\u{1680}' || (
    '\u{2000}' <= c && c <= '\u{200A}') || c == '\u{2028}' || c == '\u{2029}' || c == '\u{202F}'
        || c == '\u{205F}' || c == '\u{3000}'
}

pub fn char_is_digit(c: char) -> (r: bool)
    ensures
        r == is_digit(c),
{
    '0' <= c && c <= '9'
}

pub fn lower_one(c: char) -> (r: char)
    ensures
        r == lower_char(c),
{
    if 'A' <= c && c <= 'Z' {
        let b: u8 = c as u8;
        (b + 32) as char
    } else {
        c
    }
}

/// The characters of a string, one per element.
pub fn chars_of(s: &str) -> (v: Vec<char>)
    ensures
        v@ == s@,
{
    let n = s.unicode_len();
    let mut v: Vec<char> = Vec::new();
    let mut i: usize = 0;
    while i < n
        invariant
            n == s@.len(),
            i <= n,
            v@ == s@.subrange(0, i as int),
        decreases n - i,
    {
        let c = s.get_char(i);
        v.push(c);
        i = i + 1;
        assert(v@ =~= s@.subrange(0, i as int));
    }
    assert(v@ =~= s@);
    v
}

/// A new string holding `v[from..to]`.
pub fn collect_range(v: &Vec<char>, from: usize, to: usize) -> (r: String)
    requires
        from <= to <= v.len(),
    ensures
        r@ == v@.subrange(from as int, to as int),
{
    let mut r = String::new();
    let mut i = from;
    while i < to
        invariant
            from <= i <= to <= v.len(),
            r@ == v@.subrange(from as int, i as int),
        decreases to - i,
    {
        push_char(&mut r, v[i]);
        i = i + 1;
        assert(r@ =~= v@.subrange(from as int, i as int));
    }
    r
}

pub fn collect_all(v: &Vec<char>) -> (r: String)
    ensures
        r@ == v@,
{
    let r = collect_range(v, 0, v.len());
    assert(v@.subrange(0, v@.len() as int) =~= v@);
    r
}

/// An owned copy of a string.
pub fn copy_str(s: &str) -> (r: String)
    ensures
        r@ == s@,
{
    s.to_owned()
}

/// Concatenation of two string slices.
pub fn join2(a: &str, b: &str) -> (r: String)
    ensures
        r@ == a@ + b@,
{
    let mut r = a.to_owned();
    r.append(b);
    r
}

pub fn join3(a: &str, b: &str, c: &str) -> (r: String)
    ensures
        r@ == a@ + b@ + c@,
{
    let mut r = a.to_owned();
    r.append(b);
    r.append(c);
    r
}

pub fn seq_equal(a: &Vec<char>, b: &Vec<char>) -> (r: bool)
    ensures
        r == (a@ == b@),
{
    if a.len() != b.len() {
        return false;
    }
    let mut i: usize = 0;
    while i < a.len()
        invariant
            a.len() == b.len(),
            i <= a.len(),
            forall|k: int| 0 <= k < i ==> a@[k] == b@[k],
        decreases a.len() - i,
    {
        if a[i] != b[i] {
            return false;
        }
        i = i + 1;
    }
    assert(a@ =~= b@);
    true
}

/// `a == b` on string slices.
pub fn str_eq(a: &str, b: &str) -> (r: bool)
    ensures
        r == (a@ == b@),
{
    let x = chars_of(a);
    let y = chars_of(b);
    seq_equal(&x, &y)
}

/// `str::trim`, as an owned string.
pub fn trimmed(s: &str) -> (r: String)
    ensures
        r@ == trim(s@),
{
    let v = chars_of(s);
    let n = v.len();
    let mut i: usize = 0;
    while i < n && char_is_space(v[i])
        invariant
            n == v@.len(),
            i <= n,
            forall|k: int| 0 <= k < i ==> is_space(v@[k]),
        decreases n - i,
    {
        i = i + 1;
    }
    let mut j: usize = n;
    while j > i && char_is_space(v[j - 1])
        invariant
            n == v@.len(),
            i <= j <= n,
            forall|k: int| j <= k < n ==> is_space(v@[k]),
        decreases j,
    {
        j = j - 1;
    }
    proof {
        lemma_trim_start(v@, i as int);
        let t = v@.subrange(i as int, n as int);
        assert forall|k: int| j - i <= k < t.len() implies is_space(t[k]) by {
            assert(t[k] == v@[k + i]);
        }
        if j > i {
            assert(t[j - i - 1] == v@[j - 1]);
        }
        lemma_trim_end(t, j - i);
        assert(t.subrange(0, j - i) =~= v@.subrange(i as int, j as int));
    }
    collect_range(&v, i, j)
}

/// `str::to_ascii_lowercase`.
pub fn lowered(s: &str) -> (r: String)
    ensures
        r@ == lower(s@),
{
    let v = chars_of(s);
    let mut r = String::new();
    let mut i: usize = 0;
    while i < v.len()
        invariant
            i <= v.len(),
            r@ == lower(v@.subrange(0, i as int)),
        decreases v.len() - i,
    {
        let c = lower_one(v[i]);
        push_char(&mut r, c);
        i = i + 1;
        assert(r@ =~= lower(v@.subrange(0, i as int)));
    }
    assert(v@.subrange(0, v.len() as int) =~= v@);
    r
}

/// `str::trim` followed by `str::to_ascii_lowercase`, the key every option
/// parser matches on.
pub fn option_key(s: &str) -> (r: String)
    ensures
        r@ == lower(trim(s@)),
{
    let t = trimmed(s);
    lowered(t.as_str())
}

/// `str::eq_ignore_ascii_case`.
pub fn eq_ignore_case_str(a: &str, b: &str) -> (r: bool)
    ensures
        r == eq_ignore_case(a@, b@),
{
    let x = lowered(a);
    let y = lowered(b);
    str_eq(x.as_str(), y.as_str())
}

pub fn starts_with_seq(s: &Vec<char>, p: &Vec<char>) -> (r: bool)
    ensures
        r == starts_with(s@, p@),
{
    if p.len() > s.len() {
        return false;
    }
    let mut i: usize = 0;
    while i < p.len()
        invariant
            p.len() <= s.len(),
            i <= p.len(),
            forall|k: int| 0 <= k < i ==> s@[k] == p@[k],
        decreases p.len() - i,
    {
        if s[i] != p[i] {
            assert(s@.subrange(0, p@.len() as int)[i as int] == s@[i as int]);
            return false;
        }
        i = i + 1;
    }
    assert(s@.subrange(0, p@.len() as int) =~= p@);
    true
}

/// `str::starts_with` with a string pattern.
pub fn starts_with_str(s: &str, p: &str) -> (r: bool)
    ensures
        r == starts_with(s@, p@),
{
    let x = chars_of(s);
    let y = chars_of(p);
    starts_with_seq(&x, &y)
}

/// Whether `n` occurs in `s` starting at position `at`.
pub fn occurs_at_seq(s: &Vec<char>, n: &Vec<char>, at: usize) -> (r: bool)
    ensures
        r == occurs_at(s@, n@, at as int),
{
    if at > s.len() || n.len() > s.len() - at {
        return false;
    }
    let mut i: usize = 0;
    while i < n.len()
        invariant
            at + n.len() <= s.len(),
            i <= n.len(),
            forall|k: int| 0 <= k < i ==> s@[at + k] == n@[k],
        decreases n.len() - i,
    {
        if s[at + i] != n[i] {
            assert(s@.subrange(at as int, at + n@.len())[i as int] == s@[at + i]);
            return false;
        }
        i = i + 1;
    }
    assert(s@.subrange(at as int, at + n@.len()) =~= n@);
    true
}

pub fn ends_with_str(s: &str, p: &str) -> (r: bool)
    ensures
        r == ends_with(s@, p@),
{
    let x = chars_of(s);
    let y = chars_of(p);
    if y.len() > x.len() {
        return false;
    }
    occurs_at_seq(&x, &y, x.len() - y.len())
}

/// First position at or after `from` where `n` occurs in `s`, if any.
pub fn find_from(s: &Vec<char>, n: &Vec<char>, from: usize) -> (r: Option<usize>)
    ensures
        match r {
            Some(i) => from <= i && occurs_at(s@, n@, i as int) && forall|k: int|
                from <= k < i ==> !occurs_at(s@, n@, k),
            None => forall|k: int| from <= k ==> !occurs_at(s@, n@, k),
        },
{
    let mut i = from;
    while i < s.len()
        invariant
            from <= i,
            forall|k: int| from <= k < i ==> !occurs_at(s@, n@, k),
        decreases s.len() - i,
    {
        if occurs_at_seq(s, n, i) {
            return Some(i);
        }
        i = i + 1;
    }
    if i == s.len() && occurs_at_seq(s, n, i) {
        return Some(i);
    }
    None
}

/// `str::contains` with a string pattern.
pub fn contains_str(s: &str, n: &str) -> (r: bool)
    ensures
        r == contains(s@, n@),
{
    let x = chars_of(s);
    let y = chars_of(n);
    match find_from(&x, &y, 0) {
        Some(_) => true,
        None => {
            assert forall|k: int| !occurs_at(s@, n@, k) by {
                if k < 0 {
                }
            }
            false
        },
    }
}

/// Position of the first `c` in `v`, or its length when there is none.
pub fn position_of(v: &Vec<char>, c: char) -> (r: usize)
    ensures
        r == first_of(v@, c),
        r <= v.len(),
{
    let mut i: usize = 0;
    while i < v.len() && v[i] != c
        invariant
            i <= v.len(),
            forall|k: int| 0 <= k < i ==> v@[k] != c,
        decreases v.len() - i,
    {
        i = i + 1;
    }
    proof {
        lemma_first_of(v@, c, i as int);
    }
    i
}

pub proof fn lemma_first_of_bound(s: Seq<char>, c: char)
    ensures
        first_of(s, c) <= s.len(),
        first_of(s, c) < s.len() ==> s[first_of(s, c) as int] == c,
        forall|i: int| 0 <= i < first_of(s, c) ==> s[i] != c,
    decreases s.len(),
{
    if s.len() > 0 && s[0] != c {
        lemma_first_of_bound(s.drop_first(), c);
        assert forall|i: int| 0 <= i < first_of(s, c) implies s[i] != c by {
            if i > 0 {
                assert(s[i] == s.drop_first()[i - 1]);
            }
        }
    }
}

/// The lines of a text the way `str::lines` yields them: split at `\n`, with
/// a `\r` right before a `\n` dropped too, and no empty line after a final
/// line ending.
pub open spec fn lines(s: Seq<char>) -> Seq<Seq<char>>
    decreases s.len(),
{
    if s.len() == 0 {
        Seq::empty()
    } else {
        let k = first_of(s, '\n');
        if k < s.len() {
            let raw = s.subrange(0, k as int);
            let line = if raw.len() > 0 && raw.last() == '\r' {
                raw.drop_last()
            } else {
                raw
            };
            seq![line] + lines(s.subrange(k as int + 1, s.len() as int))
        } else {
            seq![s]
        }
    }
}

/// The characters of each string.
pub open spec fn views(v: Seq<String>) -> Seq<Seq<char>> {
    v.map_values(|x: String| x@)
}

/// Position of the first `c` in `v` at or after `from`, or the length of `v`.
pub fn position_from(v: &Vec<char>, c: char, from: usize) -> (r: usize)
    requires
        from <= v.len(),
    ensures
        from <= r <= v.len(),
        forall|j: int| from <= j < r ==> v@[j] != c,
        r == v.len() || v@[r as int] == c,
{
    let mut i = from;
    while i < v.len() && v[i] != c
        invariant
            from <= i <= v.len(),
            forall|j: int| from <= j < i ==> v@[j] != c,
        decreases v.len() - i,
    {
        i = i + 1;
    }
    i
}

/// `str::lines`, as owned strings.
pub fn split_lines(s: &str) -> (r: Vec<String>)
    ensures
        views(r@) == lines(s@),
        r@.len() == lines(s@).len(),
        forall|i: int| 0 <= i < r@.len() ==> (#[trigger] r@[i])@ == lines(s@)[i],
{
    let v = chars_of(s);
    let n = v.len();
    let mut out: Vec<String> = Vec::new();
    let mut pos: usize = 0;
    proof {
        assert(v@.subrange(0, n as int) =~= v@);
        assert(views(out@) =~= Seq::<Seq<char>>::empty());
        assert(views(out@) + lines(v@) =~= lines(v@));
    }
    while pos < n
        invariant
            n == v@.len(),
            v@ == s@,
            pos <= n,
            lines(s@) == views(out@) + lines(v@.subrange(pos as int, n as int)),
        decreases n - pos,
    {
        let k = position_from(&v, '\n', pos);
        let ghost sub = v@.subrange(pos as int, n as int);
        proof {
            lemma_first_of(sub, '\n', k - pos);
        }
        let ghost old_out = out@;
        if k < n {
            let end = if k > pos && v[k - 1] == '\r' {
                k - 1
            } else {
                k
            };
            let line = collect_range(&v, pos, end);
            proof {
                let raw = sub.subrange(0, k - pos);
                assert(raw =~= v@.subrange(pos as int, k as int));
                if k > pos && v@[k - 1] == '\r' {
                    assert(raw.drop_last() =~= v@.subrange(pos as int, end as int));
                }
                assert(sub.subrange(k - pos + 1, sub.len() as int) =~= v@.subrange(k + 1, n as int));
            }
            out.push(line);
            pos = k + 1;
            proof {
                assert(views(out@) =~= views(old_out).push(line@));
                assert(views(out@) + lines(v@.subrange(pos as int, n as int)) =~= views(old_out) + (
                seq![line@] + lines(v@.subrange(pos as int, n as int))));
            }
        } else {
            let line = collect_range(&v, pos, n);
            out.push(line);
            pos = n;
            proof {
                assert(views(out@) =~= views(old_out).push(line@));
                assert(lines(v@.subrange(pos as int, n as int)) =~= Seq::<Seq<char>>::empty());
                assert(views(out@) + lines(v@.subrange(pos as int, n as int)) =~= views(old_out) + seq![line@]);
            }
        }
    }
    proof {
        assert(lines(v@.subrange(pos as int, n as int)) =~= Seq::<Seq<char>>::empty());
        assert(views(out@) + Seq::<Seq<char>>::empty() =~= views(out@));
    }
    out
}

/// The character for one decimal digit.
pub open spec fn digit_char(d: int) -> char {
    (d + 48) as char
}

/// The decimal representation of a natural number, without leading zeros.
pub open spec fn decimal(n: nat) -> Seq<char>
    decreases n,
{
    if n < 10 {
        seq![digit_char(n as int)]
    } else {
        decimal(n / 10).push(digit_char((n % 10) as int))
    }
}

/// `u64::to_string`.
pub fn decimal_string(n: u64) -> (r: String)
    ensures
        r@ == decimal(n as nat),
    decreases n,
{
    let d: u8 = (n % 10) as u8;
    let c = (d + 48) as char;
    if n < 10 {
        let mut r = String::new();
        push_char(&mut r, c);
        assert(r@ =~= seq![c]);
        r
    } else {
        let mut r = decimal_string(n / 10);
        push_char(&mut r, c);
        r
    }
}

/// The value of a run of decimal digits.
pub open spec fn digits_value(s: Seq<char>) -> nat
    decreases s.len(),
{
    if s.len() == 0 {
        0
    } else {
        digits_value(s.drop_last()) * 10 + ((s.last() as int) - 48) as nat
    }
}

pub open spec fn all_digits(s: Seq<char>) -> bool {
    forall|i: int| 0 <= i < s.len() ==> is_digit(#[trigger] s[i])
}

/// What Rust's unsigned integer parsing reads from a string: an optional `+`
/// and at least one decimal digit, nothing else.
pub open spec fn unsigned_text(s: Seq<char>) -> Option<nat> {
    let body = if s.len() > 0 && s[0] == '+' {
        s.drop_first()
    } else {
        s
    };
    if body.len() > 0 && all_digits(body) {
        Some(digits_value(body))
    } else {
        None
    }
}

/// What Rust's signed integer parsing reads from a string: an optional sign
/// and at least one decimal digit, nothing else.
pub open spec fn signed_text(s: Seq<char>) -> Option<int> {
    if s.len() > 0 && s[0] == '-' {
        let body = s.drop_first();
        if body.len() > 0 && all_digits(body) {
            Some(-(digits_value(body) as int))
        } else {
            None
        }
    } else {
        match unsigned_text(s) {
            Some(v) => Some(v as int),
            None => None,
        }
    }
}

pub proof fn lemma_digits_value_grows(s: Seq<char>, i: int)
    requires
        0 <= i <= s.len(),
        all_digits(s),
    ensures
        digits_value(s.subrange(0, i)) <= digits_value(s),
    decreases s.len() - i,
{
    if i == s.len() {
        assert(s.subrange(0, i) =~= s);
    } else {
        lemma_digits_value_grows(s, i + 1);
        let a = s.subrange(0, i);
        let b = s.subrange(0, i + 1);
        assert(b.drop_last() =~= a);
        assert(is_digit(s[i]));
    }
}

/// Reads the digits `v[from..to]`, giving up once the value passes `limit`.
pub fn digits_upto(v: &Vec<char>, from: usize, to: usize, limit: u64) -> (r: Option<u64>)
    requires
        from <= to <= v.len(),
        all_digits(v@.subrange(from as int, to as int)),
    ensures
        match r {
            Some(x) => x == digits_value(v@.subrange(from as int, to as int)) && x <= limit,
            None => digits_value(v@.subrange(from as int, to as int)) > limit,
        },
{
    let ghost body = v@.subrange(from as int, to as int);
    let mut acc: u128 = 0;
    let mut i = from;
    while i < to
        invariant
            from <= i <= to <= v.len(),
            body == v@.subrange(from as int, to as int),
            all_digits(body),
            acc == digits_value(body.subrange(0, i - from)),
            acc <= limit,
        decreases to - i,
    {
        let c = v[i];
        assert(c == body[i - from]);
        assert(is_digit(body[i - from]));
        let d: u128 = (c as u8 - 48) as u128;
        let next = acc * 10 + d;
        proof {
            let a = body.subrange(0, i - from);
            let b = body.subrange(0, i - from + 1);
            assert(b.drop_last() =~= a);
            assert(b.last() == c);
        }
        if next > limit as u128 {
            proof {
                lemma_digits_value_grows(body, i - from + 1);
            }
            return None;
        }
        acc = next;
        i = i + 1;
    }
    assert(body.subrange(0, to - from) =~= body);
    Some(acc as u64)
}

/// `str::parse::<u32>`.
pub fn parse_u32(s: &str) -> (r: Option<u32>)
    ensures
        r == (match unsigned_text(s@) {
            Some(v) => if v <= u32::MAX {
                Some(v as u32)
            } else {
                None
            },
            None => None,
        }),
{
    let v = chars_of(s);
    let from: usize = if v.len() > 0 && v[0] == '+' {
        1
    } else {
        0
    };
    let ghost body = if s@.len() > 0 && s@[0] == '+' {
        s@.drop_first()
    } else {
        s@
    };
    assert(v@.subrange(from as int, v@.len() as int) =~= body);
    assert(v@ == s@);
    if from >= v.len() {
        return None;
    }
    let mut i = from;
    while i < v.len()
        invariant
            from <= i <= v.len(),
            body == v@.subrange(from as int, v@.len() as int),
            unsigned_text(s@) == (if body.len() > 0 && all_digits(body) {
                Some(digits_value(body))
            } else {
                None
            }),
            forall|k: int| from <= k < i ==> is_digit(v@[k]),
        decreases v.len() - i,
    {
        if !char_is_digit(v[i]) {
            assert(body[i - from] == v@[i as int]);
            return None;
        }
        i = i + 1;
    }
    assert(all_digits(body)) by {
        assert forall|k: int| 0 <= k < body.len() implies is_digit(#[trigger] body[k]) by {
            assert(body[k] == v@[k + from]);
        }
    }
    match digits_upto(&v, from, v.len(), 0xFFFF_FFFF) {
        Some(x) => Some(x as u32),
        None => None,
    }
}

/// `str::parse` into an unsigned integer no larger than `limit`, as `u64`.
pub fn parse_unsigned_upto(s: &str, limit: u64) -> (r: Option<u64>)
    ensures
        r == (match unsigned_text(s@) {
            Some(v) => if v <= limit {
                Some(v as u64)
            } else {
                None
            },
            None => None,
        }),
{
    let v = chars_of(s);
    let from: usize = if v.len() > 0 && v[0] == '+' {
        1
    } else {
        0
    };
    let ghost body = if s@.len() > 0 && s@[0] == '+' {
        s@.drop_first()
    } else {
        s@
    };
    assert(v@.subrange(from as int, v@.len() as int) =~= body);
    assert(v@ == s@);
    if from >= v.len() {
        return None;
    }
    let mut i = from;
    while i < v.len()
        invariant
            from <= i <= v.len(),
            body == v@.subrange(from as int, v@.len() as int),
            unsigned_text(s@) == (if body.len() > 0 && all_digits(body) {
                Some(digits_value(body))
            } else {
                None
            }),
            forall|k: int| from <= k < i ==> is_digit(v@[k]),
        decreases v.len() - i,
    {
        if !char_is_digit(v[i]) {
            assert(body[i - from] == v@[i as int]);
            return None;
        }
        i = i + 1;
    }
    assert(all_digits(body)) by {
        assert forall|k: int| 0 <= k < body.len() implies is_digit(#[trigger] body[k]) by {
            assert(body[k] == v@[k + from]);
        }
    }
    digits_upto(&v, from, v.len(), limit)
}

/// `str::parse::<isize>`.
pub fn parse_isize(s: &str) -> (r: Option<isize>)
    ensures
        r == (match signed_text(s@) {
            Some(v) => if isize::MIN <= v <= isize::MAX {
                Some(v as isize)
            } else {
                None
            },
            None => None,
        }),
{
    let v = chars_of(s);
    let negative = v.len() > 0 && v[0] == '-';
    let from: usize = if v.len() > 0 && (v[0] == '+' || v[0] == '-') {
        1
    } else {
        0
    };
    let ghost body = v@.subrange(from as int, v@.len() as int);
    proof {
        if negative {
            assert(body =~= s@.drop_first());
        } else if s@.len() > 0 && s@[0] == '+' {
            assert(body =~= s@.drop_first());
        } else {
            assert(body =~= s@);
        }
    }
    if from >= v.len() {
        return None;
    }
    let mut i = from;
    while i < v.len()
        invariant
            from <= i <= v.len(),
            body == v@.subrange(from as int, v@.len() as int),
            negative == (s@.len() > 0 && s@[0] == '-'),
            signed_text(s@) == (if body.len() > 0 && all_digits(body) {
                Some(if negative { -(digits_value(body) as int) } else { digits_value(body) as int })
            } else {
                None
            }),
            forall|k: int| from <= k < i ==> is_digit(v@[k]),
        decreases v.len() - i,
    {
        if !char_is_digit(v[i]) {
            assert(body[i - from] == v@[i as int]);
            return None;
        }
        i = i + 1;
    }
    assert(all_digits(body)) by {
        assert forall|k: int| 0 <= k < body.len() implies is_digit(#[trigger] body[k]) by {
            assert(body[k] == v@[k + from]);
        }
    }
    let limit: u64 = if negative {
        (isize::MAX as u64) + 1
    } else {
        isize::MAX as u64
    };
    match digits_upto(&v, from, v.len(), limit) {
        Some(x) => {
            if negative {
                if x == (isize::MAX as u64) + 1 {
                    Some(isize::MIN)
                } else {
                    Some(-(x as isize))
                }
            } else {
                Some(x as isize)
            }
        },
        None => None,
    }
}

/// `str::replace` with a non-empty pattern: every occurrence of `from`,
/// scanning left to right without overlaps, becomes `to`.
pub open spec fn replace_all(s: Seq<char>, from: Seq<char>, to: Seq<char>) -> Seq<char>
    decreases s.len(),
{
    if s.len() == 0 {
        Seq::empty()
    } else if from.len() > 0 && starts_with(s, from) {
        to + replace_all(s.subrange(from.len() as int, s.len() as int), from, to)
    } else {
        seq![s[0]] + replace_all(s.drop_first(), from, to)
    }
}

/// `str::trim_start_matches` with a single character.
pub open spec fn drop_leading(s: Seq<char>, c: char) -> Seq<char>
    decreases s.len(),
{
    if s.len() > 0 && s[0] == c {
        drop_leading(s.drop_first(), c)
    } else {
        s
    }
}

/// `str::replace` with a non-empty pattern.
pub fn replace_str(s: &Vec<char>, from: &Vec<char>, to: &Vec<char>) -> (r: Vec<char>)
    requires
        from.len() > 0,
    ensures
        r@ == replace_all(s@, from@, to@),
{
    let n = s.len();
    let mut out: Vec<char> = Vec::new();
    let mut i: usize = 0;
    assert(s@.subrange(0, n as int) =~= s@);
    while i < n
        invariant
            n == s@.len(),
            from@.len() > 0,
            i <= n,
            replace_all(s@, from@, to@) == out@ + replace_all(s@.subrange(i as int, n as int), from@, to@),
        decreases n - i,
    {
        let ghost rest = s@.subrange(i as int, n as int);
        let ghost before = out@;
        if occurs_at_seq(s, from, i) {
            assert(rest.subrange(0, from@.len() as int) =~= s@.subrange(i as int, i + from@.len()));
            assert(rest.subrange(from@.len() as int, rest.len() as int) =~= s@.subrange(i + from@.len(), n as int));
            let mut k: usize = 0;
            while k < to.len()
                invariant
                    k <= to.len(),
                    out@ == before + to@.subrange(0, k as int),
                decreases to.len() - k,
            {
                out.push(to[k]);
                k = k + 1;
                assert(out@ =~= before + to@.subrange(0, k as int));
            }
            assert(to@.subrange(0, to@.len() as int) =~= to@);
            i = i + from.len();
            assert(out@ + replace_all(s@.subrange(i as int, n as int), from@, to@) =~= before + (to@
                + replace_all(s@.subrange(i as int, n as int), from@, to@)));
        } else {
            assert(!starts_with(rest, from@)) by {
                if starts_with(rest, from@) {
                    assert(rest.subrange(0, from@.len() as int) =~= s@.subrange(i as int, i + from@.len()));
                }
            }
            assert(rest.drop_first() =~= s@.subrange(i + 1, n as int));
            out.push(s[i]);
            i = i + 1;
            assert(out@ + replace_all(s@.subrange(i as int, n as int), from@, to@) =~= before + (seq![rest[0]]
                + replace_all(s@.subrange(i as int, n as int), from@, to@)));
        }
    }
    assert(replace_all(s@.subrange(n as int, n as int), from@, to@) =~= Seq::<char>::empty());
    assert(out@ + Seq::<char>::empty() =~= out@);
    out
}

/// `str::trim_start_matches` with a single character.
pub fn drop_leading_chars(s: &Vec<char>, c: char) -> (r: Vec<char>)
    ensures
        r@ == drop_leading(s@, c),
{
    let n = s.len();
    let mut i: usize = 0;
    assert(s@.subrange(0, n as int) =~= s@);
    while i < n && s[i] == c
        invariant
            n == s@.len(),
            i <= n,
            drop_leading(s@, c) == drop_leading(s@.subrange(i as int, n as int), c),
        decreases n - i,
    {
        assert(s@.subrange(i as int, n as int).drop_first() =~= s@.subrange(i + 1, n as int));
        i = i + 1;
    }
    let mut out: Vec<char> = Vec::new();
    let mut j = i;
    while j < n
        invariant
            n == s@.len(),
            i <= j <= n,
            out@ == s@.subrange(i as int, j as int),
        decreases n - j,
    {
        out.push(s[j]);
        j = j + 1;
        assert(out@ =~= s@.subrange(i as int, j as int));
    }
    out
}

/// The characters of each string slice.
pub open spec fn str_views(v: Seq<&str>) -> Seq<Seq<char>> {
    v.map_values(|x: &str| x@)
}

/// Owned copies of string slices, in order.
pub fn owned_all(v: Vec<&str>) -> (r: Vec<String>)
    ensures
        views(r@) == str_views(v@),
{
    let mut r: Vec<String> = Vec::new();
    let mut i: usize = 0;
    while i < v.len()
        invariant
            i <= v.len(),
            r@.len() == i,
            forall|k: int| 0 <= k < i ==> (#[trigger] r@[k])@ == v@[k]@,
        decreases v.len() - i,
    {
        let s = copy_str(v[i]);
        r.push(s);
        i = i + 1;
    }
    assert forall|k: int| 0 <= k < r@.len() implies #[trigger] views(r@)[k] == str_views(v@)[k] by {
        assert(r@[k]@ == v@[k]@);
    }
    assert(views(r@) =~= str_views(v@));
    r
}

/// Copies every string of `more` onto the end of `out`.
pub fn append_all(out: &mut Vec<String>, more: &Vec<String>)
    ensures
        views(final(out)@) == views(old(out)@) + views(more@),
{
    let ghost start = out@;
    let mut i: usize = 0;
    while i < more.len()
        invariant
            i <= more.len(),
            out@.len() == start.len() + i,
            forall|k: int| 0 <= k < start.len() ==> (#[trigger] out@[k])@ == start[k]@,
            forall|k: int| 0 <= k < i ==> (#[trigger] out@[start.len() + k])@ == more@[k]@,
        decreases more.len() - i,
    {
        let x = more[i].clone();
        out.push(x);
        i = i + 1;
    }
    let ghost target = views(start) + views(more@);
    assert forall|k: int| 0 <= k < out@.len() implies #[trigger] views(out@)[k] == target[k] by {
        if k < start.len() {
            assert(out@[k]@ == start[k]@);
        } else {
            assert(out@[start.len() + (k - start.len())]@ == more@[k - start.len()]@);
        }
    }
    assert(views(out@) =~= target);
}

/// `str::parse::<usize>`.
pub fn parse_usize(s: &str) -> (r: Option<usize>)
    ensures
        r == (match unsigned_text(s@) {
            Some(v) => if v <= usize::MAX {
                Some(v as usize)
            } else {
                None
            },
            None => None,
        }),
{
    let v = chars_of(s);
    let from: usize = if v.len() > 0 && v[0] == '+' {
        1
    } else {
        0
    };
    let ghost body = if s@.len() > 0 && s@[0] == '+' {
        s@.drop_first()
    } else {
        s@
    };
    assert(v@.subrange(from as int, v@.len() as int) =~= body);
    assert(v@ == s@);
    if from >= v.len() {
        return None;
    }
    let mut i = from;
    while i < v.len()
        invariant
            from <= i <= v.len(),
            body == v@.subrange(from as int, v@.len() as int),
            unsigned_text(s@) == (if body.len() > 0 && all_digits(body) {
                Some(digits_value(body))
            } else {
                None
            }),
            forall|k: int| from <= k < i ==> is_digit(v@[k]),
        decreases v.len() - i,
    {
        if !char_is_digit(v[i]) {
            assert(body[i - from] == v@[i as int]);
            return None;
        }
        i = i + 1;
    }
    assert(all_digits(body)) by {
        assert forall|k: int| 0 <= k < body.len() implies is_digit(#[trigger] body[k]) by {
            assert(body[k] == v@[k + from]);
        }
    }
    match digits_upto(&v, from, v.len(), usize::MAX as u64) {
        Some(x) => Some(x as usize),
        None => None,
    }
}

/// The value of one hexadecimal digit, either case.
pub open spec fn hex_value(c: char) -> int {
    if '0' <= c && c <= '9' {
        c as int - 48
    } else if 'a' <= c && c <= 'f' {
        c as int - 87
    } else {
        c as int - 55
    }
}

pub open spec fn is_hex(c: char) -> bool {
    ('0' <= c && c <= '9') || ('a' <= c && c <= 'f') || ('A' <= c && c <= 'F')
}

pub open spec fn all_hex(s: Seq<char>) -> bool {
    forall|i: int| 0 <= i < s.len() ==> is_hex(#[trigger] s[i])
}

/// The value of a run of hexadecimal digits.
pub open spec fn hex_digits_value(s: Seq<char>) -> nat
    decreases s.len(),
{
    if s.len() == 0 {
        0
    } else {
        hex_digits_value(s.drop_last()) * 16 + hex_value(s.last()) as nat
    }
}

/// What `u32::from_str_radix(s, 16)` reads: an optional `+` and at least one
/// hexadecimal digit.
pub open spec fn hex_text(s: Seq<char>) -> Option<nat> {
    let body = if s.len() > 0 && s[0] == '+' {
        s.drop_first()
    } else {
        s
    };
    if body.len() > 0 && all_hex(body) {
        Some(hex_digits_value(body))
    } else {
        None
    }
}

proof fn lemma_hex_grows(s: Seq<char>, i: int)
    requires
        0 <= i <= s.len(),
        forall|k: int| 0 <= k < s.len() ==> is_hex(#[trigger] s[k]),
    ensures
        hex_digits_value(s.subrange(0, i)) <= hex_digits_value(s),
    decreases s.len() - i,
{
    if i == s.len() {
        assert(s.subrange(0, i) =~= s);
    } else {
        lemma_hex_grows(s, i + 1);
        let a = s.subrange(0, i);
        let b = s.subrange(0, i + 1);
        assert(b.drop_last() =~= a);
        assert(is_hex(s[i]));
    }
}

fn hex_digits_upto(v: &Vec<char>, from: usize, to: usize, limit: u64) -> (r: Option<u64>)
    requires
        from <= to <= v.len(),
        forall|k: int| 0 <= k < to - from ==> is_hex(#[trigger] v@.subrange(from as int, to as int)[k]),
    ensures
        match r {
            Some(x) => x == hex_digits_value(v@.subrange(from as int, to as int)) && x <= limit,
            None => hex_digits_value(v@.subrange(from as int, to as int)) > limit,
        },
{
    let ghost body = v@.subrange(from as int, to as int);
    let mut acc: u128 = 0;
    let mut i = from;
    while i < to
        invariant
            from <= i <= to <= v.len(),
            body == v@.subrange(from as int, to as int),
            forall|k: int| 0 <= k < body.len() ==> is_hex(#[trigger] body[k]),
            acc == hex_digits_value(body.subrange(0, i - from)),
            acc <= limit,
        decreases to - i,
    {
        let c = v[i];
        assert(c == body[i - from]);
        assert(is_hex(body[i - from]));
        let d: u128 = if '0' <= c && c <= '9' {
            (c as u8 - 48) as u128
        } else if 'a' <= c && c <= 'f' {
            (c as u8 - 87) as u128
        } else {
            (c as u8 - 55) as u128
        };
        let next = acc * 16 + d;
        proof {
            let a = body.subrange(0, i - from);
            let b = body.subrange(0, i - from + 1);
            assert(b.drop_last() =~= a);
            assert(b.last() == c);
        }
        if next > limit as u128 {
            proof {
                lemma_hex_grows(body, i - from + 1);
            }
            return None;
        }
        acc = next;
        i = i + 1;
    }
    assert(body.subrange(0, to - from) =~= body);
    Some(acc as u64)
}

/// `u32::from_str_radix(s, 16)`.
pub fn parse_hex_u32(s: &str) -> (r: Option<u32>)
    ensures
        r == (match hex_text(s@) {
            Some(v) => if v <= u32::MAX {
                Some(v as u32)
            } else {
                None
            },
            None => None,
        }),
{
    let v = chars_of(s);
    let from: usize = if v.len() > 0 && v[0] == '+' {
        1
    } else {
        0
    };
    let ghost body = if s@.len() > 0 && s@[0] == '+' {
        s@.drop_first()
    } else {
        s@
    };
    assert(v@.subrange(from as int, v@.len() as int) =~= body);
    assert(v@ == s@);
    if from >= v.len() {
        return None;
    }
    let mut i = from;
    while i < v.len()
        invariant
            from <= i <= v.len(),
            body == v@.subrange(from as int, v@.len() as int),
            hex_text(s@) == (if body.len() > 0 && all_hex(body) {
                Some(hex_digits_value(body))
            } else {
                None
            }),
            forall|k: int| from <= k < i ==> is_hex(v@[k]),
        decreases v.len() - i,
    {
        let c = v[i];
        if !(('0' <= c && c <= '9') || ('a' <= c && c <= 'f') || ('A' <= c && c <= 'F')) {
            assert(body[i - from] == v@[i as int]);
            return None;
        }
        i = i + 1;
    }
    assert forall|k: int| 0 <= k < body.len() implies is_hex(#[trigger] body[k]) by {
        assert(body[k] == v@[k + from]);
    }
    match hex_digits_upto(&v, from, v.len(), 0xFFFF_FFFF) {
        Some(x) => Some(x as u32),
        None => None,
    }
}

/// The first position at or after `i` where `n` occurs in `s`, as
/// `str::find` reports it.
pub open spec fn find_at(s: Seq<char>, n: Seq<char>, i: int) -> Option<int>
    decreases s.len() + 1 - i,
{
    if i < 0 || i > s.len() {
        None
    } else if occurs_at(s, n, i) {
        Some(i)
    } else {
        find_at(s, n, i + 1)
    }
}

pub proof fn lemma_find_at_found(s: Seq<char>, n: Seq<char>, from: int, i: int)
    requires
        0 <= from <= i,
        occurs_at(s, n, i),
        forall|k: int| from <= k < i ==> !occurs_at(s, n, k),
    ensures
        find_at(s, n, from) == Some(i),
    decreases i - from,
{
    if from < i {
        lemma_find_at_found(s, n, from + 1, i);
    }
}

pub proof fn lemma_find_at_none(s: Seq<char>, n: Seq<char>, from: int)
    requires
        0 <= from,
        forall|k: int| from <= k ==> !occurs_at(s, n, k),
    ensures
        find_at(s, n, from) is None,
    decreases s.len() + 1 - from,
{
    if from <= s.len() {
        lemma_find_at_none(s, n, from + 1);
    }
}

/// `str::find` with a string pattern.
pub fn find_str(s: &str, n: &str) -> (r: Option<usize>)
    ensures
        match r {
            Some(i) => find_at(s@, n@, 0) == Some(i as int),
            None => find_at(s@, n@, 0) is None,
        },
{
    let x = chars_of(s);
    let y = chars_of(n);
    match find_from(&x, &y, 0) {
        Some(i) => {
            proof {
                lemma_find_at_found(s@, n@, 0, i as int);
            }
            Some(i)
        },
        None => {
            proof {
                lemma_find_at_none(s@, n@, 0);
            }
            None
        },
    }
}

/// `str::split` with a non-empty string pattern: the pieces between the
/// occurrences found scanning left to right.
pub open spec fn split_on(s: Seq<char>, pat: Seq<char>) -> Seq<Seq<char>>
    decreases s.len(),
{
    match find_at(s, pat, 0) {
        Some(i) => if pat.len() > 0 && 0 <= i && i + pat.len() <= s.len() {
            seq![s.subrange(0, i)] + split_on(s.subrange(i + pat.len(), s.len() as int), pat)
        } else {
            seq![s]
        },
        None => seq![s],
    }
}

/// `str::split` with a non-empty string pattern, as owned strings.
pub fn split_str(s: &str, pat: &str) -> (r: Vec<String>)
    requires
        pat@.len() > 0,
    ensures
        views(r@) == split_on(s@, pat@),
{
    let p = chars_of(pat);
    let mut rest = copy_str(s);
    let mut pieces: Vec<String> = Vec::new();
    assert(views(pieces@) =~= Seq::<Seq<char>>::empty());
    assert(split_on(s@, pat@) =~= views(pieces@) + split_on(rest@, pat@));
    loop
        invariant
            p@ == pat@,
            pat@.len() > 0,
            split_on(s@, pat@) == views(pieces@) + split_on(rest@, pat@),
        decreases rest@.len(),
    {
        let ghost before = views(pieces@);
        let ghost rv = rest@;
        match find_str(rest.as_str(), pat) {
            Some(i) => {
                let v = chars_of(rest.as_str());
                assert(occurs_at(rv, pat@, i as int)) by {
                    lemma_find_at_some(rv, pat@, 0);
                }
                let piece = collect_range(&v, 0, i);
                let tail = collect_range(&v, i + p.len(), v.len());
                let ghost pv = piece@;
                pieces.push(piece);
                rest = tail;
                assert(views(pieces@) =~= before.push(pv));
                assert(views(pieces@) + split_on(rest@, pat@) =~= before + (seq![pv] + split_on(rest@, pat@)));
            },
            None => {
                let ghost last = rest@;
                pieces.push(rest);
                assert(views(pieces@) =~= before.push(last));
                assert(split_on(last, pat@) == seq![last]);
                assert(views(pieces@) =~= before + seq![last]);
                return pieces;
            },
        }
    }
}

pub proof fn lemma_find_at_some(s: Seq<char>, n: Seq<char>, from: int)
    requires
        find_at(s, n, from) is Some,
    ensures
        occurs_at(s, n, find_at(s, n, from)->0),
        from <= find_at(s, n, from)->0,
    decreases s.len() + 1 - from,
{
    if 0 <= from <= s.len() && !occurs_at(s, n, from) {
        lemma_find_at_some(s, n, from + 1);
    }
}

} // verus!
