//! Why a sidecar document reads back as the review it was written from.
//!
//! The writer quotes every string and the reader finds each field by its
//! key. Each key is written once, and every quote inside a quoted value is
//! escaped, so a value cannot hide another key's text: the first occurrence
//! of each key is the one the writer put there.
use vstd::prelude::*;
use crate::json::{hex_digit, json_body, json_char};
use crate::review::{deviations_json, field_needle, field_value, kind_marker, number_value, scan_string, sidecar_text, Deviation, ReviewItem};
use crate::text::{all_digits, decimal, digit_char, digits_value, find_at, is_digit, lemma_find_at_found, occurs_at, split_on};

verus! {

/// Whether a string reads back as it was written: it holds no control
/// character but newline, carriage return and tab (the others are written as
/// `\u` escapes, which the reader does not decode).
pub open spec fn readable_text(s: Seq<char>) -> bool {
    forall|k: int|
        0 <= k < s.len() ==> (#[trigger] s[k] as u32) > 0x1f || s[k] == '\n' || s[k] == '\r'
            || s[k] == '\t'
}

/// Whether every quote of `w` is escaped: it is preceded by a backslash.
pub open spec fn quotes_escaped(w: Seq<char>) -> bool {
    forall|k: int| 0 <= k < w.len() && #[trigger] w[k] == '"' ==> k > 0 && w[k - 1] == '\\'
}

pub proof fn lemma_body_concat(a: Seq<char>, b: Seq<char>)
    ensures
        json_body(a + b) == json_body(a) + json_body(b),
    decreases b.len(),
{
    if b.len() == 0 {
        assert(a + b =~= a);
        assert(json_body(a) + json_body(b) =~= json_body(a));
    } else {
        lemma_body_concat(a, b.drop_last());
        assert((a + b).drop_last() =~= a + b.drop_last());
        assert((a + b).last() == b.last());
        assert(json_body(a) + json_body(b.drop_last()) + json_char(b.last()) =~= json_body(a)
            + json_body(b));
    }
}

proof fn lemma_hex_digit(d: int)
    requires
        0 <= d < 16,
    ensures
        hex_digit(d) != '"',
        hex_digit(d) != ']',
        hex_digit(d) != '\\',
{
    let h = hex_digit(d);
    if d < 10 {
        assert((h as int) == d + 48);
    } else {
        assert((h as int) == d + 87);
    }
}

proof fn lemma_char_range(c: char)
    ensures
        0 <= c as int <= 0x10FFFF,
        (c as u32) as int == c as int,
{
}

/// Every quote in a written value is escaped.
pub proof fn lemma_body_escaped(s: Seq<char>)
    ensures
        quotes_escaped(json_body(s)),
    decreases s.len(),
{
    if s.len() > 0 {
        lemma_body_escaped(s.drop_last());
        let pre = json_body(s.drop_last());
        let c = s.last();
        let w = json_char(c);
        let b = json_body(s);
        assert(b == pre + w);
        if (c as u32) <= 0x1f {
            lemma_char_range(c);
            lemma_hex_digit((c as int) / 16);
            lemma_hex_digit((c as int) % 16);
        }
        assert forall|k: int| 0 <= k < b.len() && #[trigger] b[k] == '"' implies k > 0 && b[k - 1]
            == '\\' by {
            if k < pre.len() {
                assert(b[k] == pre[k]);
                assert(b[k - 1] == pre[k - 1]);
            } else {
                assert(b[k] == w[k - pre.len()]);
                if k - pre.len() == 1 {
                    assert(b[k - 1] == w[0]);
                }
            }
        }
    }
}

/// A written value holds a `]` only where its text does.
pub proof fn lemma_body_no_bracket(s: Seq<char>)
    requires
        forall|k: int| 0 <= k < s.len() ==> #[trigger] s[k] != ']',
    ensures
        forall|k: int| 0 <= k < json_body(s).len() ==> #[trigger] json_body(s)[k] != ']',
    decreases s.len(),
{
    if s.len() > 0 {
        let short = s.drop_last();
        assert forall|k: int| 0 <= k < short.len() implies #[trigger] short[k] != ']' by {
            assert(short[k] == s[k]);
        }
        lemma_body_no_bracket(short);
        let pre = json_body(short);
        let c = s.last();
        assert(c == s[s.len() - 1]);
        let w = json_char(c);
        let b = json_body(s);
        assert(b == pre + w);
        if (c as u32) <= 0x1f {
            lemma_char_range(c);
            lemma_hex_digit((c as int) / 16);
            lemma_hex_digit((c as int) % 16);
        }
        assert forall|k: int| 0 <= k < b.len() implies #[trigger] b[k] != ']' by {
            if k < pre.len() {
                assert(b[k] == pre[k]);
            } else {
                assert(b[k] == w[k - pre.len()]);
            }
        }
    }
}

/// Whether `p[i..]` and `n` differ at some position from `j` on that both
/// cover.
pub open spec fn differs_from(p: Seq<char>, n: Seq<char>, i: int, j: int) -> bool
    decreases n.len() - j,
{
    if j < 0 || j >= n.len() || i + j >= p.len() {
        false
    } else if p[i + j] != n[j] {
        true
    } else {
        differs_from(p, n, i, j + 1)
    }
}

proof fn lemma_differs(t: Seq<char>, n: Seq<char>, a: int, p: Seq<char>, i: int, j: int)
    requires
        0 <= a,
        a + p.len() <= t.len(),
        t.subrange(a, a + p.len()) == p,
        0 <= i < p.len(),
        0 <= j,
        differs_from(p, n, i, j),
    ensures
        !occurs_at(t, n, a + i),
    decreases n.len() - j,
{
    if p[i + j] != n[j] {
        if occurs_at(t, n, a + i) {
            assert(t.subrange(a + i, a + i + n.len())[j] == t[a + i + j]);
            assert(t.subrange(a, a + p.len())[i + j] == t[a + i + j]);
        }
    } else {
        lemma_differs(t, n, a, p, i, j + 1);
    }
}

/// No occurrence of `n` starts in the first `upto` characters of the piece
/// `p` that `t` holds at `a`.
proof fn lemma_piece_clear(t: Seq<char>, n: Seq<char>, a: int, p: Seq<char>, upto: int)
    requires
        0 <= a,
        a + p.len() <= t.len(),
        t.subrange(a, a + p.len()) == p,
        0 <= upto <= p.len(),
        forall|i: int| 0 <= i < upto ==> #[trigger] differs_from(p, n, i, 0),
    ensures
        forall|q: int| a <= q < a + upto ==> !occurs_at(t, n, q),
{
    assert forall|q: int| a <= q < a + upto implies !occurs_at(t, n, q) by {
        assert(differs_from(p, n, q - a, 0));
        lemma_differs(t, n, a, p, q - a, 0);
    }
}

/// No occurrence of `n`, which starts with a quote, starts inside a value
/// without quotes.
proof fn lemma_value_clear(t: Seq<char>, n: Seq<char>, a: int, v: Seq<char>)
    requires
        0 <= a,
        a + v.len() <= t.len(),
        t.subrange(a, a + v.len()) == v,
        n.len() > 0,
        n[0] == '"',
        forall|k: int| 0 <= k < v.len() ==> #[trigger] v[k] != '"',
    ensures
        forall|q: int| a <= q < a + v.len() ==> !occurs_at(t, n, q),
{
    assert forall|q: int| a <= q < a + v.len() implies !occurs_at(t, n, q) by {
        assert(t.subrange(a, a + v.len())[q - a] == t[q]);
        if occurs_at(t, n, q) {
            assert(t.subrange(q, q + n.len())[0] == t[q]);
        }
    }
}

/// The key needle `"K":...` cannot start at the opening quote of a quoted
/// value, nor inside it: the quote after `K` would have to be an escaped
/// quote of the value, which a key character does not precede, or its
/// closing quote, which is not followed by a colon.
proof fn lemma_quoted_clear(t: Seq<char>, n: Seq<char>, a: int, v: Seq<char>, klen: int)
    requires
        0 <= a,
        a + v.len() + 2 < t.len(),
        t.subrange(a + 1, a + 1 + v.len()) == v,
        quotes_escaped(v),
        t[a + 1 + v.len()] == '"',
        t[a + 2 + v.len()] != ':',
        key_shaped(n, klen),
    ensures
        forall|q: int| a <= q < a + 1 + v.len() ==> !occurs_at(t, n, q),
{
    let c = a + 1 + v.len();
    assert forall|q: int| a <= q < c implies !occurs_at(t, n, q) by {
        if occurs_at(t, n, q) {
            let w = t.subrange(q, q + n.len());
            let p = q + klen + 1;
            assert(w[klen + 1] == t[p]);
            assert(w[klen + 2] == t[p + 1]);
            if p < c {
                let i = p - a - 1;
                assert(t.subrange(a + 1, c)[i] == t[p]);
                assert(v[i] == '"');
                assert(t.subrange(a + 1, c)[i - 1] == t[p - 1]);
                assert(w[klen] == t[p - 1]);
            } else if p > c {
                assert(w[c - q] == t[c]);
                assert(n[c - q] != '"');
            }
        }
    }
}

/// Reading a written value back gives its text, when that text is readable.
proof fn lemma_scan_body(t: Seq<char>, i: int, s: Seq<char>, acc: Seq<char>)
    requires
        0 <= i,
        i + json_body(s).len() < t.len(),
        t.subrange(i, i + json_body(s).len()) == json_body(s),
        t[i + json_body(s).len()] == '"',
        readable_text(s),
    ensures
        scan_string(t, i, acc) == Some(acc + s),
    decreases s.len(),
{
    if s.len() == 0 {
        assert(acc + s =~= acc);
    } else {
        let c = s[0];
        let rest = s.drop_first();
        assert(s =~= seq![c] + rest);
        lemma_body_concat(seq![c], rest);
        assert(seq![c].drop_last() =~= Seq::<char>::empty());
        assert(seq![c].last() == c);
        assert(json_body(Seq::<char>::empty()) =~= Seq::<char>::empty());
        assert(json_body(seq![c]) =~= json_char(c));
        let w = json_char(c);
        let b = json_body(s);
        assert(b == w + json_body(rest));
        let len = w.len() as int;
        assert(t.subrange(i, i + b.len())[0] == t[i]);
        assert(b[0] == w[0]);
        if len == 2 {
            assert(t.subrange(i, i + b.len())[1] == t[i + 1]);
            assert(b[1] == w[1]);
        }
        assert(b.subrange(len, b.len() as int) =~= json_body(rest));
        assert(t.subrange(i + len, i + len + json_body(rest).len()) =~= t.subrange(
            i,
            i + b.len(),
        ).subrange(len, b.len() as int));
        assert forall|k: int| 0 <= k < rest.len() implies (#[trigger] rest[k] as u32) > 0x1f
            || rest[k] == '\n' || rest[k] == '\r' || rest[k] == '\t' by {
            assert(rest[k] == s[k + 1]);
        }
        assert(c == s[0]);
        lemma_scan_body(t, i + len, rest, acc.push(c));
        assert(acc.push(c) + rest =~= acc + s);
    }
}

/// The fixed text of a sidecar document, in order; the values sit between
/// consecutive pieces.
pub open spec fn lit(k: int) -> Seq<char> {
    if k == 0 {
        "{\"version\":1,\"original_path\":\""@
    } else if k == 1 {
        "\",\"review_path\":\""@
    } else if k == 2 {
        "\",\"final_path\":\""@
    } else if k == 3 {
        "\",\"original_bytes\":"@
    } else if k == 4 {
        ",\"review_bytes\":"@
    } else if k == 5 {
        ",\"encoder\":\""@
    } else if k == 6 {
        "\",\"codec\":\""@
    } else if k == 7 {
        "\",\"quality\":\""@
    } else if k == 8 {
        "\",\"score\":"@
    } else if k == 9 {
        ",\"target\":"@
    } else if k == 10 {
        ",\"deviations\":["@
    } else {
        "]}"@
    }
}

/// Whether the piece `k` ends with the opening quote of a quoted value.
pub open spec fn opens_quote(k: int) -> bool {
    k == 0 || k == 1 || k == 2 || k == 5 || k == 6 || k == 7
}

/// Whether no occurrence of `n` can start in the piece `k`, except at the
/// opening quote it may end with.
pub open spec fn piece_ok(n: Seq<char>, k: int) -> bool {
    forall|i: int|
        0 <= i < lit(k).len() - (if opens_quote(k) { 1int } else { 0int }) ==> #[trigger] differs_from(
            lit(k),
            n,
            i,
            0,
        )
}


/// How a score is written: its hundredths, or `null`.
pub open spec fn score_text(score: Option<u32>) -> Seq<char> {
    match score {
        Some(s) => decimal(s as nat),
        None => "null"@,
    }
}

/// The string written, quoted, after the piece `k` that opens a quote.
pub open spec fn string_part(item: ReviewItem, k: int) -> Seq<char> {
    if k == 0 {
        item.original_path@
    } else if k == 1 {
        item.review_path@
    } else if k == 2 {
        item.final_path@
    } else if k == 5 {
        item.encoder@
    } else if k == 6 {
        item.codec@
    } else {
        item.quality@
    }
}

/// The value written after the piece `k`.
pub open spec fn value_part(item: ReviewItem, k: int) -> Seq<char> {
    if opens_quote(k) {
        json_body(string_part(item, k))
    } else if k == 3 {
        decimal(item.original_bytes as nat)
    } else if k == 4 {
        decimal(item.review_bytes as nat)
    } else if k == 8 {
        score_text(item.score)
    } else if k == 9 {
        decimal(item.target as nat)
    } else {
        deviations_json(item.deviations@)
    }
}

/// The `k`th part of the document: pieces of fixed text at even places,
/// values at odd ones.
pub open spec fn doc_part(item: ReviewItem, k: int) -> Seq<char> {
    if k % 2 == 0 {
        lit(k / 2)
    } else {
        value_part(item, k / 2)
    }
}

/// The first `k` parts of the document.
pub open spec fn doc_upto(item: ReviewItem, k: nat) -> Seq<char>
    decreases k,
{
    if k == 0 {
        Seq::empty()
    } else {
        doc_upto(item, (k - 1) as nat) + doc_part(item, k - 1)
    }
}

/// Where the `k`th part starts.
pub open spec fn pos(item: ReviewItem, k: int) -> int {
    doc_upto(item, k as nat).len() as int
}

/// The whole document, as its parts.
pub open spec fn doc(item: ReviewItem) -> Seq<char> {
    doc_upto(item, 23)
}

/// Whether every string field of a review reads back as it was written.
pub open spec fn readable_item(item: ReviewItem) -> bool {
    &&& readable_text(item.original_path@)
    &&& readable_text(item.review_path@)
    &&& readable_text(item.final_path@)
    &&& readable_text(item.encoder@)
    &&& readable_text(item.codec@)
    &&& readable_text(item.quality@)
}

proof fn lemma_doc_prefix(item: ReviewItem, k: nat, m: nat)
    requires
        k <= m,
    ensures
        doc_upto(item, m).len() >= doc_upto(item, k).len(),
        doc_upto(item, m).subrange(0, doc_upto(item, k).len() as int) == doc_upto(item, k),
    decreases m - k,
{
    if k < m {
        lemma_doc_prefix(item, k, (m - 1) as nat);
        let a = doc_upto(item, (m - 1) as nat);
        let b = doc_upto(item, m);
        assert(b.subrange(0, a.len() as int) =~= a);
        assert(b.subrange(0, doc_upto(item, k).len() as int) =~= a.subrange(
            0,
            doc_upto(item, k).len() as int,
        ));
    } else {
        assert(doc_upto(item, m).subrange(0, doc_upto(item, k).len() as int) =~= doc_upto(item, k));
    }
}

/// The document holds its `k`th part where that part starts.
proof fn lemma_part_at(item: ReviewItem, k: int)
    requires
        0 <= k < 23,
    ensures
        pos(item, k + 1) == pos(item, k) + doc_part(item, k).len(),
        pos(item, k + 1) <= doc(item).len(),
        doc(item).subrange(pos(item, k), pos(item, k + 1)) == doc_part(item, k),
{
    lemma_doc_prefix(item, (k + 1) as nat, 23);
    let t = doc(item);
    let upto = doc_upto(item, (k + 1) as nat);
    assert(upto == doc_upto(item, k as nat) + doc_part(item, k));
    assert(upto.subrange(pos(item, k), pos(item, k + 1)) =~= doc_part(item, k));
    assert(t.subrange(pos(item, k), pos(item, k + 1)) =~= upto.subrange(pos(item, k), pos(item, k + 1)));
}

/// A sidecar document is written as its parts.
proof fn lemma_doc_is_sidecar(item: ReviewItem)
    ensures
        sidecar_text(item) == doc(item),
{
    let op = json_body(item.original_path@);
    let rp = json_body(item.review_path@);
    assert(doc_upto(item, 0) == Seq::<char>::empty());
    assert(doc_upto(item, 1) =~= lit(0));
    assert(doc_upto(item, 2) == lit(0) + op);
    assert(doc_upto(item, 3) == lit(0) + op + lit(1));
    assert(doc_upto(item, 4) == lit(0) + op + lit(1) + rp);
    assert(doc_upto(item, 5) == doc_upto(item, 4) + lit(2));
    assert(doc_upto(item, 6) == doc_upto(item, 5) + json_body(item.final_path@));
    assert(doc_upto(item, 7) == doc_upto(item, 6) + lit(3));
    assert(doc_upto(item, 8) == doc_upto(item, 7) + decimal(item.original_bytes as nat));
    assert(doc_upto(item, 9) == doc_upto(item, 8) + lit(4));
    assert(doc_upto(item, 10) == doc_upto(item, 9) + decimal(item.review_bytes as nat));
    assert(doc_upto(item, 11) == doc_upto(item, 10) + lit(5));
    assert(doc_upto(item, 12) == doc_upto(item, 11) + json_body(item.encoder@));
    assert(doc_upto(item, 13) == doc_upto(item, 12) + lit(6));
    assert(doc_upto(item, 14) == doc_upto(item, 13) + json_body(item.codec@));
    assert(doc_upto(item, 15) == doc_upto(item, 14) + lit(7));
    assert(doc_upto(item, 16) == doc_upto(item, 15) + json_body(item.quality@));
    assert(doc_upto(item, 17) == doc_upto(item, 16) + lit(8));
    assert(doc_upto(item, 18) == doc_upto(item, 17) + score_text(item.score));
    assert(doc_upto(item, 19) == doc_upto(item, 18) + lit(9));
    assert(doc_upto(item, 20) == doc_upto(item, 19) + decimal(item.target as nat));
    assert(doc_upto(item, 21) == doc_upto(item, 20) + lit(10));
    assert(doc_upto(item, 22) == doc_upto(item, 21) + deviations_json(item.deviations@));
    assert(doc_upto(item, 23) == doc_upto(item, 22) + lit(11));
}

/// Every character of a number written in decimal is a digit, and the
/// digits read back as the number.
proof fn lemma_decimal(n: nat)
    ensures
        decimal(n).len() > 0,
        all_digits(decimal(n)),
        digits_value(decimal(n)) == n,
    decreases n,
{
    let d = decimal(n);
    if n < 10 {
        assert(d.drop_last() =~= Seq::<char>::empty());
        assert(digits_value(Seq::<char>::empty()) == 0);
        assert(d.last() == digit_char(n as int));
        assert((d.last() as int) - 48 == n);
    } else {
        lemma_decimal(n / 10);
        assert(d.drop_last() =~= decimal(n / 10));
        assert(d.last() == digit_char((n % 10) as int));
        assert((d.last() as int) - 48 == n % 10);
        assert(digits_value(d) == digits_value(decimal(n / 10)) * 10 + ((d.last() as int) - 48) as nat);
        assert((n / 10) * 10 + n % 10 == n);
        assert forall|i: int| 0 <= i < d.len() implies is_digit(#[trigger] d[i]) by {
            if i < d.len() - 1 {
                assert(d[i] == decimal(n / 10)[i]);
            }
        }
    }
}

/// Whether no occurrence of `n` can start in any of the first `j` pieces,
/// except at the opening quotes they may end with.
pub open spec fn pieces_ok(n: Seq<char>, j: int) -> bool
    decreases j,
{
    j <= 0 || (pieces_ok(n, j - 1) && piece_ok(n, j - 1))
}

/// Whether `n` is `"K":` followed by anything, for a non-empty key `K` of
/// `klen` characters without quotes or backslashes.
pub open spec fn key_shaped(n: Seq<char>, klen: int) -> bool {
    &&& 1 <= klen
    &&& n.len() >= klen + 3
    &&& n[0] == '"'
    &&& n[klen + 1] == '"'
    &&& n[klen + 2] == ':'
    &&& forall|i: int| 1 <= i <= klen ==> #[trigger] n[i] != '"' && n[i] != '\\'
}

proof fn lemma_lit_shapes()
    ensures
        forall|k: int| 0 <= k < 12 ==> #[trigger] lit(k).len() >= 2,
        forall|k: int| 0 <= k < 12 && opens_quote(k) ==> #[trigger] lit(k)[lit(k).len() - 1] == '"',
        forall|k: int| 0 < k < 12 && opens_quote(k - 1) ==> #[trigger] lit(k)[0] == '"' && lit(k)[1] == ',',
{
    reveal_strlit("{\"version\":1,\"original_path\":\"");
    reveal_strlit("\",\"review_path\":\"");
    reveal_strlit("\",\"final_path\":\"");
    reveal_strlit("\",\"original_bytes\":");
    reveal_strlit(",\"review_bytes\":");
    reveal_strlit(",\"encoder\":\"");
    reveal_strlit("\",\"codec\":\"");
    reveal_strlit("\",\"quality\":\"");
    reveal_strlit("\",\"score\":");
    reveal_strlit(",\"target\":");
    reveal_strlit(",\"deviations\":[");
    reveal_strlit("]}");
}

/// The numbers hold no quote.
proof fn lemma_numbers_quote_free(item: ReviewItem, k: int)
    requires
        k == 3 || k == 4 || k == 8 || k == 9,
    ensures
        forall|i: int| 0 <= i < value_part(item, k).len() ==> #[trigger] value_part(item, k)[i] != '"',
{
    lemma_decimal(item.original_bytes as nat);
    lemma_decimal(item.review_bytes as nat);
    lemma_decimal(item.target as nat);
    match item.score {
        Some(s) => lemma_decimal(s as nat),
        None => reveal_strlit("null"),
    }
    let v = value_part(item, k);
    assert forall|i: int| 0 <= i < v.len() implies #[trigger] v[i] != '"' by {
        if k == 8 && item.score is None {
        } else {
            assert(is_digit(v[i]));
        }
    }
}

/// No key needle `n` starts before the piece `j`, given that none can start
/// in the pieces before it.
proof fn lemma_clear_before(item: ReviewItem, n: Seq<char>, klen: int, j: int)
    requires
        key_shaped(n, klen),
        0 <= j <= 10,
        pieces_ok(n, j),
    ensures
        forall|q: int| 0 <= q < pos(item, 2 * j) ==> !occurs_at(doc(item), n, q),
    decreases j,
{
    if j > 0 {
        let m = j - 1;
        lemma_clear_before(item, n, klen, m);
        let t = doc(item);
        lemma_lit_shapes();
        lemma_part_at(item, 2 * m);
        lemma_part_at(item, 2 * m + 1);
        lemma_part_at(item, 2 * m + 2);
        assert(doc_part(item, 2 * m) == lit(m));
        assert(doc_part(item, 2 * m + 1) == value_part(item, m));
        assert(doc_part(item, 2 * m + 2) == lit(m + 1));
        let a = pos(item, 2 * m);
        let v = value_part(item, m);
        let cut: int = if opens_quote(m) { 1 } else { 0 };
        lemma_piece_clear(t, n, a, lit(m), lit(m).len() - cut);
        if opens_quote(m) {
            lemma_body_escaped(string_part(item, m));
            let b = pos(item, 2 * m + 1) - 1;
            assert(t.subrange(a, pos(item, 2 * m + 1))[lit(m).len() - 1] == t[b]);
            let c = pos(item, 2 * m + 2);
            assert(t.subrange(c, pos(item, 2 * m + 3))[0] == t[c]);
            assert(t.subrange(c, pos(item, 2 * m + 3))[1] == t[c + 1]);
            assert(t.subrange(b + 1, b + 1 + v.len()) == v);
            lemma_quoted_clear(t, n, b, v, klen);
        } else {
            lemma_numbers_quote_free(item, m);
            lemma_value_clear(t, n, pos(item, 2 * m + 1), v);
        }
    }
}

/// A key needle found where the writer put it: nothing like it starts
/// before, and it sits at `o` in the piece `j`.
proof fn lemma_needle_at(item: ReviewItem, n: Seq<char>, klen: int, j: int, o: int)
    requires
        key_shaped(n, klen),
        0 <= j <= 10,
        pieces_ok(n, j),
        0 <= o <= lit(j).len(),
        n == lit(j).subrange(o, lit(j).len() as int),
        forall|i: int| 0 <= i < o ==> #[trigger] differs_from(lit(j), n, i, 0),
    ensures
        find_at(doc(item), n, 0) == Some(pos(item, 2 * j) + o),
        pos(item, 2 * j) + o + n.len() == pos(item, 2 * j + 1),
{
    let t = doc(item);
    lemma_clear_before(item, n, klen, j);
    lemma_part_at(item, 2 * j);
    assert(doc_part(item, 2 * j) == lit(j));
    let a = pos(item, 2 * j);
    lemma_piece_clear(t, n, a, lit(j), o);
    assert(t.subrange(a + o, a + o + n.len()) =~= t.subrange(a, pos(item, 2 * j + 1)).subrange(
        o,
        lit(j).len() as int,
    ));
    assert(occurs_at(t, n, a + o));
    lemma_find_at_found(t, n, 0, a + o);
}

/// A string field reads back as the value written after the piece `j`.
proof fn lemma_string_field(item: ReviewItem, key: Seq<char>, j: int, o: int)
    requires
        readable_text(string_part(item, j)),
        j == 0 || j == 1 || j == 2 || j == 5 || j == 6 || j == 7,
        key_shaped(field_needle(key), key.len() as int),
        pieces_ok(field_needle(key), j),
        0 <= o <= lit(j).len(),
        field_needle(key) == lit(j).subrange(o, lit(j).len() as int),
        forall|i: int| 0 <= i < o ==> #[trigger] differs_from(lit(j), field_needle(key), i, 0),
    ensures
        field_value(doc(item), key) == Some(string_part(item, j)),
{
    let t = doc(item);
    let n = field_needle(key);
    lemma_needle_at(item, n, key.len() as int, j, o);
    lemma_part_at(item, 2 * j + 1);
    lemma_part_at(item, 2 * j + 2);
    assert(doc_part(item, 2 * j + 1) == value_part(item, j));
    assert(doc_part(item, 2 * j + 2) == lit(j + 1));
    let v = value_part(item, j);
    let x = string_part(item, j);
    assert(v == json_body(x));
    let i = pos(item, 2 * j + 1);
    let c = pos(item, 2 * j + 2);
    assert(i + v.len() == c);
    assert(t[c] == '"' && c < t.len()) by {
        lemma_lit_shapes();
        assert(opens_quote(j));
        assert(lit(j + 1)[0] == '"');
        assert(t.subrange(c, pos(item, 2 * j + 3))[0] == t[c]);
    }
    assert(t.subrange(i, c) == v);
    lemma_scan_body(t, i, x, Seq::empty());
    assert(Seq::<char>::empty() + x =~= x);
}

/// A numeric field reads back as the number written after the piece `j`,
/// and a `null` score as none.
proof fn lemma_number_field(item: ReviewItem, key: Seq<char>, j: int, o: int)
    requires
        j == 3 || j == 4 || j == 8 || j == 9,
        key_shaped("\""@ + key + "\":"@, key.len() as int),
        pieces_ok("\""@ + key + "\":"@, j),
        0 <= o <= lit(j).len(),
        "\""@ + key + "\":"@ == lit(j).subrange(o, lit(j).len() as int),
        forall|i: int| 0 <= i < o ==> #[trigger] differs_from(lit(j), "\""@ + key + "\":"@, i, 0),
    ensures
        j == 3 ==> number_value(doc(item), key) == Some(item.original_bytes),
        j == 4 ==> number_value(doc(item), key) == Some(item.review_bytes),
        j == 8 ==> number_value(doc(item), key) == (match item.score {
            Some(s) => Some(s as u64),
            None => None,
        }),
        j == 9 ==> number_value(doc(item), key) == Some(item.target as u64),
{
    let t = doc(item);
    let n = "\""@ + key + "\":"@;
    lemma_needle_at(item, n, key.len() as int, j, o);
    lemma_part_at(item, 2 * j + 1);
    lemma_part_at(item, 2 * j + 2);
    lemma_lit_shapes();
    reveal_strlit("\",\"review_bytes\":");
    reveal_strlit(",\"review_bytes\":");
    reveal_strlit(",\"encoder\":\"");
    reveal_strlit(",\"target\":");
    reveal_strlit(",\"deviations\":[");
    assert(doc_part(item, 2 * j + 1) == value_part(item, j));
    assert(doc_part(item, 2 * j + 2) == lit(j + 1));
    let v = value_part(item, j);
    let start = pos(item, 2 * j + 1);
    let c = pos(item, 2 * j + 2);
    assert(t.subrange(c, pos(item, 2 * j + 3))[0] == t[c]);
    assert(!is_digit(t[c]));
    lemma_decimal(item.original_bytes as nat);
    lemma_decimal(item.review_bytes as nat);
    lemma_decimal(item.target as nat);
    if j == 8 && item.score is None {
        reveal_strlit("null");
        assert(t.subrange(start, c)[0] == t[start]);
        assert(!is_digit(t[start]));
        crate::review::lemma_digits_end(t, start, start);
        assert(t.subrange(start, start) =~= Seq::<char>::empty());
    } else {
        match item.score {
            Some(s) => lemma_decimal(s as nat),
            None => {},
        }
        assert forall|k: int| start <= k < c implies is_digit(t[k]) by {
            assert(t.subrange(start, c)[k - start] == t[k]);
        }
        crate::review::lemma_digits_end(t, start, c);
        assert(t.subrange(start, c) == v);
    }
}

proof fn lemma_field_original_path(item: ReviewItem)
    requires
        readable_text(item.original_path@),
    ensures
        field_value(doc(item), "original_path"@) == Some(item.original_path@),
{
    reveal_strlit("original_path");
    reveal_strlit("\"");
    reveal_strlit("\":\"");
    reveal_strlit("{\"version\":1,\"original_path\":\"");
    reveal_with_fuel(differs_from, 12);
    reveal_with_fuel(pieces_ok, 1);
    let n = field_needle("original_path"@);
    assert(n =~= lit(0).subrange(13, 30));
    lemma_string_field(item, "original_path"@, 0, 13);
}

proof fn lemma_field_review_path(item: ReviewItem)
    requires
        readable_text(item.review_path@),
    ensures
        field_value(doc(item), "review_path"@) == Some(item.review_path@),
{
    reveal_strlit("review_path");
    reveal_strlit("\"");
    reveal_strlit("\":\"");
    reveal_strlit("{\"version\":1,\"original_path\":\"");
    reveal_strlit("\",\"review_path\":\"");
    reveal_with_fuel(differs_from, 12);
    reveal_with_fuel(pieces_ok, 2);
    let n = field_needle("review_path"@);
    assert(n =~= lit(1).subrange(2, 17));
    lemma_string_field(item, "review_path"@, 1, 2);
}

proof fn lemma_field_final_path(item: ReviewItem)
    requires
        readable_text(item.final_path@),
    ensures
        field_value(doc(item), "final_path"@) == Some(item.final_path@),
{
    reveal_strlit("final_path");
    reveal_strlit("\"");
    reveal_strlit("\":\"");
    reveal_strlit("{\"version\":1,\"original_path\":\"");
    reveal_strlit("\",\"review_path\":\"");
    reveal_strlit("\",\"final_path\":\"");
    reveal_with_fuel(differs_from, 12);
    reveal_with_fuel(pieces_ok, 3);
    let n = field_needle("final_path"@);
    assert(n =~= lit(2).subrange(2, 16));
    lemma_string_field(item, "final_path"@, 2, 2);
}

proof fn lemma_field_original_bytes(item: ReviewItem)
    ensures
        number_value(doc(item), "original_bytes"@) == Some(item.original_bytes),
{
    reveal_strlit("original_bytes");
    reveal_strlit("\"");
    reveal_strlit("\":");
    reveal_strlit("{\"version\":1,\"original_path\":\"");
    reveal_strlit("\",\"review_path\":\"");
    reveal_strlit("\",\"final_path\":\"");
    reveal_strlit("\",\"original_bytes\":");
    reveal_with_fuel(differs_from, 12);
    reveal_with_fuel(pieces_ok, 4);
    let n = "\""@ + "original_bytes"@ + "\":"@;
    assert(n =~= lit(3).subrange(2, 19));
    lemma_number_field(item, "original_bytes"@, 3, 2);
}

proof fn lemma_field_review_bytes(item: ReviewItem)
    ensures
        number_value(doc(item), "review_bytes"@) == Some(item.review_bytes),
{
    reveal_strlit("review_bytes");
    reveal_strlit("\"");
    reveal_strlit("\":");
    reveal_strlit("{\"version\":1,\"original_path\":\"");
    reveal_strlit("\",\"review_path\":\"");
    reveal_strlit("\",\"final_path\":\"");
    reveal_strlit("\",\"original_bytes\":");
    reveal_strlit(",\"review_bytes\":");
    reveal_with_fuel(differs_from, 12);
    reveal_with_fuel(pieces_ok, 5);
    let n = "\""@ + "review_bytes"@ + "\":"@;
    assert(n =~= lit(4).subrange(1, 16));
    lemma_number_field(item, "review_bytes"@, 4, 1);
}

proof fn lemma_field_encoder(item: ReviewItem)
    requires
        readable_text(item.encoder@),
    ensures
        field_value(doc(item), "encoder"@) == Some(item.encoder@),
{
    reveal_strlit("encoder");
    reveal_strlit("\"");
    reveal_strlit("\":\"");
    reveal_strlit("{\"version\":1,\"original_path\":\"");
    reveal_strlit("\",\"review_path\":\"");
    reveal_strlit("\",\"final_path\":\"");
    reveal_strlit("\",\"original_bytes\":");
    reveal_strlit(",\"review_bytes\":");
    reveal_strlit(",\"encoder\":\"");
    reveal_with_fuel(differs_from, 12);
    reveal_with_fuel(pieces_ok, 6);
    let n = field_needle("encoder"@);
    assert(n =~= lit(5).subrange(1, 12));
    lemma_string_field(item, "encoder"@, 5, 1);
}

proof fn lemma_field_codec(item: ReviewItem)
    requires
        readable_text(item.codec@),
    ensures
        field_value(doc(item), "codec"@) == Some(item.codec@),
{
    reveal_strlit("codec");
    reveal_strlit("\"");
    reveal_strlit("\":\"");
    reveal_strlit("{\"version\":1,\"original_path\":\"");
    reveal_strlit("\",\"review_path\":\"");
    reveal_strlit("\",\"final_path\":\"");
    reveal_strlit("\",\"original_bytes\":");
    reveal_strlit(",\"review_bytes\":");
    reveal_strlit(",\"encoder\":\"");
    reveal_strlit("\",\"codec\":\"");
    reveal_with_fuel(differs_from, 12);
    reveal_with_fuel(pieces_ok, 7);
    let n = field_needle("codec"@);
    assert(n =~= lit(6).subrange(2, 11));
    lemma_string_field(item, "codec"@, 6, 2);
}

proof fn lemma_field_quality(item: ReviewItem)
    requires
        readable_text(item.quality@),
    ensures
        field_value(doc(item), "quality"@) == Some(item.quality@),
{
    reveal_strlit("quality");
    reveal_strlit("\"");
    reveal_strlit("\":\"");
    reveal_strlit("{\"version\":1,\"original_path\":\"");
    reveal_strlit("\",\"review_path\":\"");
    reveal_strlit("\",\"final_path\":\"");
    reveal_strlit("\",\"original_bytes\":");
    reveal_strlit(",\"review_bytes\":");
    reveal_strlit(",\"encoder\":\"");
    reveal_strlit("\",\"codec\":\"");
    reveal_strlit("\",\"quality\":\"");
    reveal_with_fuel(differs_from, 12);
    reveal_with_fuel(pieces_ok, 8);
    let n = field_needle("quality"@);
    assert(n =~= lit(7).subrange(2, 13));
    lemma_string_field(item, "quality"@, 7, 2);
}

proof fn lemma_field_score(item: ReviewItem)
    ensures
        number_value(doc(item), "score"@) == (match item.score {
            Some(s) => Some(s as u64),
            None => None,
        }),
{
    reveal_strlit("score");
    reveal_strlit("\"");
    reveal_strlit("\":");
    reveal_strlit("{\"version\":1,\"original_path\":\"");
    reveal_strlit("\",\"review_path\":\"");
    reveal_strlit("\",\"final_path\":\"");
    reveal_strlit("\",\"original_bytes\":");
    reveal_strlit(",\"review_bytes\":");
    reveal_strlit(",\"encoder\":\"");
    reveal_strlit("\",\"codec\":\"");
    reveal_strlit("\",\"quality\":\"");
    reveal_strlit("\",\"score\":");
    reveal_with_fuel(differs_from, 12);
    reveal_with_fuel(pieces_ok, 9);
    let n = "\""@ + "score"@ + "\":"@;
    assert(n =~= lit(8).subrange(2, 10));
    lemma_number_field(item, "score"@, 8, 2);
}

proof fn lemma_field_target(item: ReviewItem)
    ensures
        number_value(doc(item), "target"@) == Some(item.target as u64),
{
    reveal_strlit("target");
    reveal_strlit("\"");
    reveal_strlit("\":");
    reveal_strlit("{\"version\":1,\"original_path\":\"");
    reveal_strlit("\",\"review_path\":\"");
    reveal_strlit("\",\"final_path\":\"");
    reveal_strlit("\",\"original_bytes\":");
    reveal_strlit(",\"review_bytes\":");
    reveal_strlit(",\"encoder\":\"");
    reveal_strlit("\",\"codec\":\"");
    reveal_strlit("\",\"quality\":\"");
    reveal_strlit("\",\"score\":");
    reveal_strlit(",\"target\":");
    reveal_with_fuel(differs_from, 12);
    reveal_with_fuel(pieces_ok, 10);
    let n = "\""@ + "target"@ + "\":"@;
    assert(n =~= lit(9).subrange(1, 10));
    lemma_number_field(item, "target"@, 9, 1);
}

/// What follows the `{"kind":` marker of one written deviation.
pub open spec fn dev_rest(d: Deviation) -> Seq<char> {
    "\""@ + json_body(d.kind@) + "\",\"detail\":\""@ + json_body(d.detail@) + "\"}"@
}

/// Whether a string holds no `]`, which would end the deviation list early.
pub open spec fn no_close_bracket(s: Seq<char>) -> bool {
    forall|k: int| 0 <= k < s.len() ==> #[trigger] s[k] != ']'
}

/// Whether a deviation reads back as it was written and cannot end the list
/// early.
pub open spec fn readable_deviation(d: Deviation) -> bool {
    &&& readable_text(d.kind@)
    &&& readable_text(d.detail@)
    &&& no_close_bracket(d.kind@)
    &&& no_close_bracket(d.detail@)
}

/// One deviation's chunk, whatever follows it, reads back as its kind and
/// detail.
proof fn lemma_chunk_fields(d: Deviation, tail: Seq<char>)
    requires
        readable_text(d.kind@),
        readable_text(d.detail@),
    ensures
        field_value(kind_marker() + dev_rest(d) + tail, "kind"@) == Some(d.kind@),
        field_value(kind_marker() + dev_rest(d) + tail, "detail"@) == Some(d.detail@),
{
    let k = json_body(d.kind@);
    let x = json_body(d.detail@);
    let p0 = "{\"kind\":\""@;
    let p1 = "\",\"detail\":\""@;
    let p2 = "\"}"@;
    reveal_strlit("{\"kind\":\"");
    reveal_strlit("{\"kind\":");
    reveal_strlit("\",\"detail\":\"");
    reveal_strlit("\"}");
    reveal_strlit("\"");
    reveal_strlit("kind");
    reveal_strlit("detail");
    reveal_strlit("\":\"");
    let t = kind_marker() + dev_rest(d) + tail;
    assert(t =~= p0 + k + p1 + x + p2 + tail);
    let a1 = p0.len() as int;
    let a2 = a1 + k.len();
    let a3 = a2 + p1.len();
    let a4 = a3 + x.len();
    assert(t.subrange(0, a1) =~= p0);
    assert(t.subrange(a1, a2) =~= k);
    assert(t.subrange(a2, a3) =~= p1);
    assert(t.subrange(a3, a4) =~= x);
    assert(t.subrange(a4, a4 + 2) =~= p2);
    assert(t[a2] == p1[0]);
    assert(t[a4] == p2[0]);
    // The kind needle sits right after the opening brace.
    let nk = field_needle("kind"@);
    assert(nk =~= p0.subrange(1, 9));
    assert(!occurs_at(t, nk, 0)) by {
        if occurs_at(t, nk, 0) {
            assert(t.subrange(0, nk.len() as int)[0] == t[0]);
            assert(t.subrange(0, a1)[0] == t[0]);
        }
    }
    assert(t.subrange(1, 9) =~= t.subrange(0, a1).subrange(1, 9));
    assert(occurs_at(t, nk, 1));
    lemma_find_at_found(t, nk, 0, 1);
    lemma_scan_body(t, a1, d.kind@, Seq::empty());
    assert(Seq::<char>::empty() + d.kind@ =~= d.kind@);
    // The detail needle: nothing like it before its own place.
    let nd = field_needle("detail"@);
    assert(nd =~= p1.subrange(2, 12));
    reveal_with_fuel(differs_from, 4);
    assert forall|i: int| 0 <= i < 8 implies #[trigger] differs_from(p0, nd, i, 0) by {}
    lemma_piece_clear(t, nd, 0, p0, 8);
    assert(t.subrange(a2, a3)[1] == t[a2 + 1]);
    lemma_body_escaped(d.kind@);
    lemma_quoted_clear(t, nd, a1 - 1, k, 6);
    assert forall|i: int| 0 <= i < 2 implies #[trigger] differs_from(p1, nd, i, 0) by {}
    lemma_piece_clear(t, nd, a2, p1, 2);
    assert(t.subrange(a2 + 2, a3) =~= t.subrange(a2, a3).subrange(2, 12));
    assert(occurs_at(t, nd, a2 + 2));
    lemma_find_at_found(t, nd, 0, a2 + 2);
    lemma_scan_body(t, a3, d.detail@, Seq::empty());
    assert(Seq::<char>::empty() + d.detail@ =~= d.detail@);
}

/// The text after the `i`th deviation's marker, running to the end of the
/// list.
pub open spec fn after_marker(ds: Seq<Deviation>, i: int) -> Seq<char>
    decreases ds.len() - i,
{
    if i < 0 || i >= ds.len() {
        Seq::empty()
    } else if i + 1 >= ds.len() {
        dev_rest(ds[i])
    } else {
        dev_rest(ds[i]) + ","@ + kind_marker() + after_marker(ds, i + 1)
    }
}

proof fn lemma_after_marker_push(ds: Seq<Deviation>, i: int)
    requires
        ds.len() >= 2,
        0 <= i < ds.len() - 1,
    ensures
        after_marker(ds, i) == after_marker(ds.drop_last(), i) + ","@ + kind_marker() + dev_rest(
            ds.last(),
        ),
    decreases ds.len() - i,
{
    let short = ds.drop_last();
    assert(short[i] == ds[i]);
    if i + 2 < ds.len() {
        lemma_after_marker_push(ds, i + 1);
        assert(after_marker(ds, i) =~= after_marker(short, i) + ","@ + kind_marker() + dev_rest(
            ds.last(),
        ));
    } else {
        assert(after_marker(ds, i + 1) == dev_rest(ds.last()));
        assert(after_marker(ds, i) =~= after_marker(short, i) + ","@ + kind_marker() + dev_rest(
            ds.last(),
        ));
    }
}

proof fn lemma_deviation_json(d: Deviation)
    ensures
        crate::review::deviation_json(d) == kind_marker() + dev_rest(d),
{
    reveal_strlit("{\"kind\":\"");
    reveal_strlit("{\"kind\":");
    reveal_strlit("\"");
    assert("{\"kind\":\""@ =~= kind_marker() + "\""@);
    assert(crate::review::deviation_json(d) =~= kind_marker() + dev_rest(d));
}

/// A non-empty deviation list is written as a marker and what follows it.
proof fn lemma_list_as_markers(ds: Seq<Deviation>)
    requires
        ds.len() >= 1,
    ensures
        deviations_json(ds) == kind_marker() + after_marker(ds, 0),
    decreases ds.len(),
{
    if ds.len() == 1 {
        lemma_deviation_json(ds[0]);
    } else {
        let short = ds.drop_last();
        lemma_list_as_markers(short);
        lemma_deviation_json(ds.last());
        lemma_after_marker_push(ds, 0);
        assert(deviations_json(ds) =~= kind_marker() + after_marker(ds, 0));
    }
}

/// The chunk the `k`th deviation leaves once the list is split at its
/// markers: its text, with the separating comma unless it is the last.
pub open spec fn chunk_at(ds: Seq<Deviation>, k: int) -> Seq<char> {
    if k + 1 < ds.len() {
        dev_rest(ds[k]) + ","@
    } else {
        dev_rest(ds[k])
    }
}

pub open spec fn chunk_list(ds: Seq<Deviation>, i: int) -> Seq<Seq<char>> {
    Seq::new((ds.len() - i) as nat, |k: int| chunk_at(ds, i + k))
}

/// No marker starts inside one deviation's text, nor at the comma after it:
/// a marker's quote follows a brace, while a quote inside a written string
/// follows a backslash, and the closing quotes are followed by a comma or a
/// brace, not by `kind`.
proof fn lemma_marker_free(d: Deviation, tail: Seq<char>)
    ensures
        forall|q: int|
            0 <= q < dev_rest(d).len() ==> !occurs_at(dev_rest(d) + tail, kind_marker(), q),
        tail.len() > 0 && tail[0] == ',' ==> !occurs_at(dev_rest(d) + tail, kind_marker(), dev_rest(d).len() as int),
{
    let k = json_body(d.kind@);
    let x = json_body(d.detail@);
    lemma_body_escaped(d.kind@);
    lemma_body_escaped(d.detail@);
    let q0 = "\""@;
    let p1 = "\",\"detail\":\""@;
    let p2 = "\"}"@;
    reveal_strlit("\"");
    reveal_strlit("\",\"detail\":\"");
    reveal_strlit("\"}");
    reveal_strlit("{\"kind\":");
    let m = kind_marker();
    let t = dev_rest(d) + tail;
    assert(t =~= q0 + k + p1 + x + p2 + tail);
    let a1 = 1int;
    let a2 = a1 + k.len();
    let a3 = a2 + 12;
    let a4 = a3 + x.len();
    assert(t.subrange(a1, a2) =~= k);
    assert(t.subrange(a2, a3) =~= p1);
    assert(t.subrange(a3, a4) =~= x);
    assert(t.subrange(a4, a4 + 2) =~= p2);
    assert(t[0] == '"');
    assert forall|q: int| 0 <= q < dev_rest(d).len() implies !occurs_at(t, m, q) by {
        if occurs_at(t, m, q) {
            let w = t.subrange(q, q + 8);
            assert(w[0] == t[q]);
            assert(w[1] == t[q + 1]);
            assert(w[2] == t[q + 2]);
            if a1 <= q < a2 {
                assert(t.subrange(a1, a2)[q - a1] == t[q]);
                if q + 1 < a2 {
                    assert(t.subrange(a1, a2)[q + 1 - a1] == t[q + 1]);
                    assert(k[q + 1 - a1] == '"');
                } else {
                    assert(t.subrange(a2, a3)[1] == t[q + 2]);
                }
            } else if a2 <= q < a3 {
                assert(t.subrange(a2, a3)[q - a2] == t[q]);
            } else if a3 <= q < a4 {
                assert(t.subrange(a3, a4)[q - a3] == t[q]);
                if q + 1 < a4 {
                    assert(t.subrange(a3, a4)[q + 1 - a3] == t[q + 1]);
                    assert(x[q + 1 - a3] == '"');
                } else {
                    assert(t.subrange(a4, a4 + 2)[1] == t[q + 2]);
                }
            } else if a4 <= q {
                assert(t.subrange(a4, a4 + 2)[q - a4] == t[q]);
            }
        }
    }
    if tail.len() > 0 && tail[0] == ',' {
        assert(t[dev_rest(d).len() as int] == tail[0]);
        if occurs_at(t, m, dev_rest(d).len() as int) {
            assert(t.subrange(dev_rest(d).len() as int, dev_rest(d).len() + 8int)[0] == t[dev_rest(d).len() as int]);
        }
    }
}

/// Splitting the text after the `i`th marker at the markers gives the
/// chunks of the deviations from the `i`th on.
proof fn lemma_split_chunks(ds: Seq<Deviation>, i: int)
    requires
        0 <= i < ds.len(),
    ensures
        split_on(after_marker(ds, i), kind_marker()) == chunk_list(ds, i),
    decreases ds.len() - i,
{
    let m = kind_marker();
    reveal_strlit("{\"kind\":");
    let d = ds[i];
    let s = after_marker(ds, i);
    if i + 1 >= ds.len() {
        lemma_marker_free(d, Seq::empty());
        assert(dev_rest(d) + Seq::<char>::empty() =~= dev_rest(d));
        assert(s == dev_rest(d));
        crate::text::lemma_find_at_none(s, m, 0);
        assert(chunk_list(ds, i) =~= seq![s]);
    } else {
        let tail = ","@ + m + after_marker(ds, i + 1);
        reveal_strlit(",");
        assert(s =~= dev_rest(d) + tail);
        lemma_marker_free(d, tail);
        let at = dev_rest(d).len() as int + 1;
        assert(s.subrange(at, at + 8) =~= m);
        assert(occurs_at(s, m, at));
        assert forall|q: int| 0 <= q < at implies !occurs_at(s, m, q) by {}
        lemma_find_at_found(s, m, 0, at);
        lemma_split_chunks(ds, i + 1);
        assert(s.subrange(0, at) =~= dev_rest(d) + ","@);
        assert(s.subrange(at + 8, s.len() as int) =~= after_marker(ds, i + 1));
        assert(chunk_list(ds, i) =~= seq![dev_rest(d) + ","@] + chunk_list(ds, i + 1));
    }
}

/// Chunks that each read back as one deviation read back as the list.
proof fn lemma_chunks_read(ds: Seq<Deviation>, chunks: Seq<Seq<char>>)
    requires
        chunks.len() == ds.len(),
        forall|k: int|
            0 <= k < ds.len() ==> field_value(kind_marker() + #[trigger] chunks[k], "kind"@) == Some(
                ds[k].kind@,
            ) && field_value(kind_marker() + chunks[k], "detail"@) == Some(ds[k].detail@),
    ensures
        crate::review::deviations_from(chunks) == crate::review::deviation_views(ds),
    decreases ds.len(),
{
    if ds.len() > 0 {
        let n = ds.len() - 1;
        assert(chunks[n as int] == chunks.last());
        lemma_chunks_read(ds.drop_last(), chunks.drop_last());
        assert(crate::review::deviation_views(ds) =~= crate::review::deviation_views(ds.drop_last()).push(
            (ds.last().kind@, ds.last().detail@),
        ));
    } else {
        assert(crate::review::deviation_views(ds) =~= Seq::<(Seq<char>, Seq<char>)>::empty());
    }
}

/// The deviations of a written list read back in order.
proof fn lemma_chunk_list_reads(ds: Seq<Deviation>)
    requires
        forall|k: int| 0 <= k < ds.len() ==> readable_deviation(#[trigger] ds[k]),
    ensures
        crate::review::deviations_from(chunk_list(ds, 0)) == crate::review::deviation_views(ds),
{
    let chunks = chunk_list(ds, 0);
    assert forall|k: int| 0 <= k < ds.len() implies field_value(kind_marker() + #[trigger] chunks[k], "kind"@)
        == Some(ds[k].kind@) && field_value(kind_marker() + chunks[k], "detail"@) == Some(ds[k].detail@) by {
        assert(readable_deviation(ds[k]));
        assert(chunks[k] == chunk_at(ds, k));
        if k + 1 < ds.len() {
            lemma_chunk_fields(ds[k], ","@);
            assert(kind_marker() + chunks[k] =~= kind_marker() + dev_rest(ds[k]) + ","@);
        } else {
            lemma_chunk_fields(ds[k], Seq::empty());
            assert(kind_marker() + dev_rest(ds[k]) + Seq::<char>::empty() =~= kind_marker() + dev_rest(ds[k]));
        }
    }
    lemma_chunks_read(ds, chunks);
}

proof fn lemma_nb_concat(a: Seq<char>, b: Seq<char>)
    requires
        no_close_bracket(a),
        no_close_bracket(b),
    ensures
        no_close_bracket(a + b),
{
    assert forall|k: int| 0 <= k < (a + b).len() implies #[trigger] (a + b)[k] != ']' by {
        if k < a.len() {
            assert((a + b)[k] == a[k]);
        } else {
            assert((a + b)[k] == b[k - a.len()]);
        }
    }
}

/// A written deviation list holds no `]` of its own.
proof fn lemma_list_no_bracket(ds: Seq<Deviation>, i: int)
    requires
        0 <= i,
        forall|k: int| 0 <= k < ds.len() ==> readable_deviation(#[trigger] ds[k]),
    ensures
        no_close_bracket(after_marker(ds, i)),
    decreases ds.len() - i,
{
    reveal_strlit("\"");
    reveal_strlit("\",\"detail\":\"");
    reveal_strlit("\"}");
    reveal_strlit("{\"kind\":");
    reveal_strlit(",");
    if i < ds.len() {
        let d = ds[i];
        assert(readable_deviation(d));
        let k = json_body(d.kind@);
        let x = json_body(d.detail@);
        lemma_body_no_bracket(d.kind@);
        lemma_body_no_bracket(d.detail@);
        lemma_nb_concat("\""@, k);
        lemma_nb_concat("\""@ + k, "\",\"detail\":\""@);
        lemma_nb_concat("\""@ + k + "\",\"detail\":\""@, x);
        lemma_nb_concat("\""@ + k + "\",\"detail\":\""@ + x, "\"}"@);
        if i + 1 < ds.len() {
            lemma_list_no_bracket(ds, i + 1);
            lemma_nb_concat(dev_rest(d), ","@);
            lemma_nb_concat(dev_rest(d) + ","@, kind_marker());
            lemma_nb_concat(dev_rest(d) + ","@ + kind_marker(), after_marker(ds, i + 1));
        }
    }
}

/// The deviation list reads back as written.
proof fn lemma_deviation_list(item: ReviewItem)
    requires
        forall|k: int|
            0 <= k < item.deviations@.len() ==> readable_deviation(#[trigger] item.deviations@[k]),
    ensures
        crate::review::deviations_value(doc(item)) == crate::review::deviation_views(item.deviations@),
{
    let t = doc(item);
    let ds = item.deviations@;
    let n = "\"deviations\":["@;
    let m = kind_marker();
    reveal_strlit("\"deviations\":[");
    reveal_strlit("{\"kind\":");
    reveal_strlit("]");
    reveal_strlit("]}");
    reveal_strlit("{\"version\":1,\"original_path\":\"");
    reveal_strlit("\",\"review_path\":\"");
    reveal_strlit("\",\"final_path\":\"");
    reveal_strlit("\",\"original_bytes\":");
    reveal_strlit(",\"review_bytes\":");
    reveal_strlit(",\"encoder\":\"");
    reveal_strlit("\",\"codec\":\"");
    reveal_strlit("\",\"quality\":\"");
    reveal_strlit("\",\"score\":");
    reveal_strlit(",\"target\":");
    reveal_strlit(",\"deviations\":[");
    reveal_with_fuel(differs_from, 12);
    reveal_with_fuel(pieces_ok, 11);
    assert(n =~= lit(10).subrange(1, 15));
    lemma_needle_at(item, n, 10, 10, 1);
    let start = pos(item, 20) + 1;
    lemma_part_at(item, 20);
    lemma_part_at(item, 21);
    lemma_part_at(item, 22);
    assert(doc_part(item, 20) == lit(10));
    assert(doc_part(item, 21) == deviations_json(ds));
    assert(doc_part(item, 22) == lit(11));
    let dj = deviations_json(ds);
    assert(pos(item, 23) == t.len());
    let rest = t.subrange(start, t.len() as int);
    assert(rest =~= n + dj + "]}"@) by {
        assert(t.subrange(start, pos(item, 21)) =~= t.subrange(pos(item, 20), pos(item, 21)).subrange(1, 15));
        assert(rest =~= t.subrange(start, pos(item, 21)) + t.subrange(pos(item, 21), pos(item, 22))
            + t.subrange(pos(item, 22), pos(item, 23)));
    }
    // The list holds no bracket, so the first one closes it.
    if ds.len() > 0 {
        lemma_list_as_markers(ds);
        lemma_list_no_bracket(ds, 0);
        lemma_nb_concat(m, after_marker(ds, 0));
    } else {
        assert(dj =~= Seq::<char>::empty());
    }
    assert(no_close_bracket(dj));
    let end = 14 + dj.len() as int;
    assert forall|q: int| 0 <= q < end implies !occurs_at(rest, "]"@, q) by {
        if occurs_at(rest, "]"@, q) {
            assert(rest.subrange(q, q + 1)[0] == rest[q]);
            if q < 14 {
                assert(rest[q] == n[q]);
            } else {
                assert(rest[q] == dj[q - 14]);
            }
        }
    }
    assert(rest.subrange(end, end + 1) =~= "]"@);
    lemma_find_at_found(rest, "]"@, 0, end);
    let listed = rest.subrange(0, end);
    assert(listed =~= n + dj);
    assert forall|q: int| 0 <= q < 14 implies !occurs_at(listed, m, q) by {
        if occurs_at(listed, m, q) {
            assert(listed.subrange(q, q + 8)[0] == listed[q]);
            assert(listed[q] == n[q]);
        }
    }
    if ds.len() > 0 {
        assert(listed =~= n + m + after_marker(ds, 0));
        assert(listed.subrange(14, 22) =~= m);
        lemma_find_at_found(listed, m, 0, 14);
        assert(listed.subrange(0, 14) =~= n);
        assert(listed.subrange(22, listed.len() as int) =~= after_marker(ds, 0));
        lemma_split_chunks(ds, 0);
        assert(split_on(listed, m) =~= seq![n] + chunk_list(ds, 0));
        assert(split_on(listed, m).drop_first() =~= chunk_list(ds, 0));
        lemma_chunk_list_reads(ds);
    } else {
        assert(listed =~= n);
        assert forall|q: int| 14 <= q implies !occurs_at(listed, m, q) by {}
        crate::text::lemma_find_at_none(listed, m, 0);
        assert(split_on(listed, m) == seq![listed]);
        assert(split_on(listed, m).drop_first() =~= Seq::<Seq<char>>::empty());
        assert(crate::review::deviation_views(ds) =~= Seq::<(Seq<char>, Seq<char>)>::empty());
    }
}

/// A sidecar reads back as the review it was written from: the paths,
/// sizes, encoder, codec, quality setting, score, target and deviations that
/// `sidecar_json` writes are what `sidecar_item` finds again. Quotes,
/// backslashes, newlines, carriage returns and tabs are escaped on the way
/// out and undone on the way in. The two things that do not come back are
/// left out: another control character is written as a `\u` escape that the
/// reader does not decode, and a `]` inside a deviation ends the list early.
pub proof fn sidecar_reads_back(item: ReviewItem)
    requires
        readable_item(item),
        forall|k: int|
            0 <= k < item.deviations@.len() ==> readable_deviation(#[trigger] item.deviations@[k]),
    ensures
        field_value(sidecar_text(item), "original_path"@) == Some(item.original_path@),
        field_value(sidecar_text(item), "review_path"@) == Some(item.review_path@),
        field_value(sidecar_text(item), "final_path"@) == Some(item.final_path@),
        field_value(sidecar_text(item), "encoder"@) == Some(item.encoder@),
        field_value(sidecar_text(item), "codec"@) == Some(item.codec@),
        field_value(sidecar_text(item), "quality"@) == Some(item.quality@),
        number_value(sidecar_text(item), "original_bytes"@) == Some(item.original_bytes),
        number_value(sidecar_text(item), "review_bytes"@) == Some(item.review_bytes),
        number_value(sidecar_text(item), "score"@) == (match item.score {
            Some(s) => Some(s as u64),
            None => None,
        }),
        number_value(sidecar_text(item), "target"@) == Some(item.target as u64),
        crate::review::deviations_value(sidecar_text(item)) == crate::review::deviation_views(
            item.deviations@,
        ),
{
    lemma_doc_is_sidecar(item);
    lemma_field_original_path(item);
    lemma_field_review_path(item);
    lemma_field_final_path(item);
    lemma_field_encoder(item);
    lemma_field_codec(item);
    lemma_field_quality(item);
    lemma_field_original_bytes(item);
    lemma_field_review_bytes(item);
    lemma_field_score(item);
    lemma_field_target(item);
    lemma_deviation_list(item);
}

} // verus!
