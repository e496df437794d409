//! Conversions that are waiting for the user to choose a file.
//!
//! A flexible conversion that changed something recoverable, or that scored
//! below the quality target, is never committed over the original. Instead the
//! converted video is written beside it as `<name>.myvidcomp-review.<ext>` with
//! a small sidecar file recording what changed and how it scored. Nothing is
//! deleted until the user decides.
use vstd::prelude::*;
use crate::json::{append_json_body, json_body, json_quoted, json_string};
use crate::options::{err_view, key_of};
use crate::text::{
    all_digits, chars_of, collect_range, copy_str, decimal, decimal_string, digits_value,
    find_at, find_str, is_digit, join2, join3, option_key, push_char, split_on, split_str,
    str_eq, views,
};

verus! {

/// One recoverable difference between the source and the converted file.
#[derive(Debug, Clone, PartialEq, Eq)]
pub struct Deviation {
    /// Stable identifier, for example `pixel_format` or `dropped_stream`.
    pub kind: String,
    /// One sentence a non-technical reader can act on.
    pub detail: String,
}

impl Deviation {
    /// Builds a deviation record.
    pub fn new(kind: &str, detail: &str) -> (r: Self)
        ensures
            r.kind@ == kind@,
            r.detail@ == detail@,
    {
        Deviation { kind: copy_str(kind), detail: copy_str(detail) }
    }
}

/// A converted file waiting for a keep-or-discard decision.
#[derive(Debug, Clone, PartialEq, Eq)]
pub struct ReviewItem {
    /// The untouched source file.
    pub original_path: String,
    /// The converted file, still carrying the review suffix.
    pub review_path: String,
    /// The sidecar describing this pair.
    pub sidecar_path: String,
    /// The name the converted file takes if the user keeps it.
    pub final_path: String,
    pub original_bytes: u64,
    pub review_bytes: u64,
    pub encoder: String,
    pub codec: String,
    pub quality: String,
    /// Measured quality in hundredths of a VMAF point, when it could be measured.
    pub score: Option<u32>,
    /// The score the run was aiming for, in hundredths.
    pub target: u32,
    pub deviations: Vec<Deviation>,
}

/// What the user decided about one pending review.
#[derive(Debug, Clone, Copy, PartialEq, Eq, Structural)]
pub enum ReviewDecision {
    /// Replace the original with the converted file.
    KeepNew,
    /// Discard the converted file and leave the original alone.
    KeepOriginal,
    /// Keep both, renaming the converted file so it no longer looks pending.
    KeepBoth,
}

pub open spec fn decision_for_key(k: Seq<char>) -> Option<ReviewDecision> {
    if k == "keep-new"@ || k == "keep_new"@ || k == "new"@ {
        Some(ReviewDecision::KeepNew)
    } else if k == "keep-original"@ || k == "keep_original"@ || k == "original"@ {
        Some(ReviewDecision::KeepOriginal)
    } else if k == "keep-both"@ || k == "keep_both"@ || k == "both"@ {
        Some(ReviewDecision::KeepBoth)
    } else {
        None
    }
}

pub open spec fn parse_decision_spec(value: Seq<char>) -> Result<ReviewDecision, Seq<char>> {
    let k = key_of(value);
    match decision_for_key(k) {
        Some(d) => Ok(d),
        None => Err(
            "invalid review decision: "@ + k
                + ". Supported values: keep-new, keep-original, keep-both"@,
        ),
    }
}

/// The names each decision goes by: the one the usage text lists, the same
/// with an underscore, and the short form.
pub open spec fn decision_names(d: ReviewDecision) -> Seq<Seq<char>> {
    match d {
        ReviewDecision::KeepNew => seq!["keep-new"@, "keep_new"@, "new"@],
        ReviewDecision::KeepOriginal => seq!["keep-original"@, "keep_original"@, "original"@],
        ReviewDecision::KeepBoth => seq!["keep-both"@, "keep_both"@, "both"@],
    }
}

/// A decision is read from any of its names, in any case and with space
/// around it, and a value is refused exactly when, so read, it is none of
/// the names of any decision.
pub proof fn decisions_parse_from_their_names(value: Seq<char>)
    ensures
        forall|d: ReviewDecision|
            #[trigger] decision_names(d).contains(key_of(value)) ==> parse_decision_spec(value)
                == Ok::<ReviewDecision, Seq<char>>(d),
        (parse_decision_spec(value) is Err) == (!decision_names(ReviewDecision::KeepNew).contains(
            key_of(value),
        ) && !decision_names(ReviewDecision::KeepOriginal).contains(key_of(value))
            && !decision_names(ReviewDecision::KeepBoth).contains(key_of(value))),
{
    let k = key_of(value);
    reveal_strlit("keep-new");
    reveal_strlit("keep_new");
    reveal_strlit("new");
    reveal_strlit("keep-original");
    reveal_strlit("keep_original");
    reveal_strlit("original");
    reveal_strlit("keep-both");
    reveal_strlit("keep_both");
    reveal_strlit("both");
    let n = decision_names(ReviewDecision::KeepNew);
    let o = decision_names(ReviewDecision::KeepOriginal);
    let b = decision_names(ReviewDecision::KeepBoth);
    assert(n.contains(k) == (k == "keep-new"@ || k == "keep_new"@ || k == "new"@)) by {
        if n.contains(k) {
            let j = choose|j: int| 0 <= j < n.len() && n[j] == k;
            assert(j == 0 || j == 1 || j == 2);
        }
        if k == "keep-new"@ { assert(n[0] == k); }
        if k == "keep_new"@ { assert(n[1] == k); }
        if k == "new"@ { assert(n[2] == k); }
    }
    assert(o.contains(k) == (k == "keep_original"@ || k == "original"@ || k == "keep-original"@)) by {
        if o.contains(k) {
            let j = choose|j: int| 0 <= j < o.len() && o[j] == k;
            assert(j == 0 || j == 1 || j == 2);
        }
        if k == "keep-original"@ { assert(o[0] == k); }
        if k == "keep_original"@ { assert(o[1] == k); }
        if k == "original"@ { assert(o[2] == k); }
    }
    assert(b.contains(k) == (k == "keep-both"@ || k == "keep_both"@ || k == "both"@)) by {
        if b.contains(k) {
            let j = choose|j: int| 0 <= j < b.len() && b[j] == k;
            assert(j == 0 || j == 1 || j == 2);
        }
        if k == "keep-both"@ { assert(b[0] == k); }
        if k == "keep_both"@ { assert(b[1] == k); }
        if k == "both"@ { assert(b[2] == k); }
    }
    assert forall|d: ReviewDecision| #[trigger] decision_names(d).contains(k) implies parse_decision_spec(
        value,
    ) == Ok::<ReviewDecision, Seq<char>>(d) by {
        match d {
            ReviewDecision::KeepNew => {
                assert(decision_names(d) == n);
            },
            ReviewDecision::KeepOriginal => {
                assert(decision_names(d) == o);
                assert(k == "keep_original"@ || k == "original"@ || k == "keep-original"@);
                assert(!(k == "keep-new"@ || k == "keep_new"@ || k == "new"@)) by {
                    if k == "keep-original"@ {
                        assert(k[5] != "keep-new"@[5]);
                        assert(k.len() != "keep_new"@.len());
                        assert(k.len() != "new"@.len());
                    } else if k == "keep_original"@ {
                        assert(k.len() != "keep-new"@.len());
                        assert(k[5] != "keep_new"@[5]);
                        assert(k.len() != "new"@.len());
                    } else {
                        assert(k[0] != "keep-new"@[0]);
                        assert(k[0] != "keep_new"@[0]);
                        assert(k[0] != "new"@[0]);
                    }
                }
            },
            ReviewDecision::KeepBoth => {
                assert(decision_names(d) == b);
                assert(k == "keep-both"@ || k == "keep_both"@ || k == "both"@);
                assert(!(k == "keep-new"@ || k == "keep_new"@ || k == "new"@)) by {
                    if k == "keep-both"@ {
                        assert(k[5] != "keep-new"@[5]);
                        assert(k[5] != "keep_new"@[5]);
                        assert(k.len() != "new"@.len());
                    } else if k == "keep_both"@ {
                        assert(k[5] != "keep-new"@[5]);
                        assert(k[5] != "keep_new"@[5]);
                        assert(k.len() != "new"@.len());
                    } else {
                        assert(k.len() != "keep-new"@.len());
                        assert(k.len() != "keep_new"@.len());
                        assert(k[0] != "new"@[0]);
                    }
                }
                assert(!(k == "keep_original"@ || k == "original"@ || k == "keep-original"@)) by {
                    if k == "keep-both"@ || k == "keep_both"@ {
                        assert(k.len() != "keep-original"@.len());
                        assert(k.len() != "keep_original"@.len());
                        assert(k[0] != "original"@[0]);
                    } else {
                        assert(k.len() != "keep-original"@.len());
                        assert(k.len() != "keep_original"@.len());
                        assert(k.len() != "original"@.len());
                    }
                }
            },
        }
    }
}

/// Parses a review decision.
pub fn parse_review_decision(value: &str) -> (r: Result<ReviewDecision, String>)
    ensures
        err_view(r) == parse_decision_spec(value@),
{
    let key = option_key(value);
    let k = key.as_str();
    if str_eq(k, "keep-new") || str_eq(k, "keep_new") || str_eq(k, "new") {
        Ok(ReviewDecision::KeepNew)
    } else if str_eq(k, "keep-original") || str_eq(k, "keep_original") || str_eq(k, "original") {
        Ok(ReviewDecision::KeepOriginal)
    } else if str_eq(k, "keep-both") || str_eq(k, "keep_both") || str_eq(k, "both") {
        Ok(ReviewDecision::KeepBoth)
    } else {
        Err(
            join3(
                "invalid review decision: ",
                k,
                ". Supported values: keep-new, keep-original, keep-both",
            ),
        )
    }
}

/// One deviation as a JSON object.
pub open spec fn deviation_json(d: Deviation) -> Seq<char> {
    "{\"kind\":\""@ + json_body(d.kind@) + "\",\"detail\":\""@ + json_body(d.detail@) + "\"}"@
}

/// Deviations as JSON objects separated by commas.
pub open spec fn deviations_json(ds: Seq<Deviation>) -> Seq<char>
    decreases ds.len(),
{
    if ds.len() == 0 {
        Seq::empty()
    } else if ds.len() == 1 {
        deviation_json(ds[0])
    } else {
        deviations_json(ds.drop_last()) + ","@ + deviation_json(ds.last())
    }
}

/// The sidecar document describing one pending review.
pub open spec fn sidecar_text(item: ReviewItem) -> Seq<char> {
    "{\"version\":1,\"original_path\":\""@ + json_body(item.original_path@)
        + "\",\"review_path\":\""@ + json_body(item.review_path@) + "\",\"final_path\":\""@
        + json_body(item.final_path@) + "\",\"original_bytes\":"@ + decimal(
        item.original_bytes as nat,
    ) + ",\"review_bytes\":"@ + decimal(item.review_bytes as nat) + ",\"encoder\":\""@ + json_body(
        item.encoder@,
    ) + "\",\"codec\":\""@ + json_body(item.codec@) + "\",\"quality\":\""@ + json_body(
        item.quality@,
    ) + "\",\"score\":"@ + match item.score {
        Some(s) => decimal(s as nat),
        None => "null"@,
    } + ",\"target\":"@ + decimal(item.target as nat) + ",\"deviations\":["@ + deviations_json(
        item.deviations@,
    ) + "]}"@
}

fn append_json(out: &mut String, value: &str)
    ensures
        final(out)@ == old(out)@ + json_quoted(value@),
{
    let j = json_string(value);
    out.append(j.as_str());
}

fn append_number(out: &mut String, n: u64)
    ensures
        final(out)@ == old(out)@ + decimal(n as nat),
{
    let d = decimal_string(n);
    out.append(d.as_str());
}

/// Serializes one review item as its sidecar document.
pub fn sidecar_json(item: &ReviewItem) -> (r: String)
    ensures
        r@ == sidecar_text(*item),
{
    let mut devs = String::new();
    let mut i: usize = 0;
    assert(devs@ =~= deviations_json(item.deviations@.subrange(0, 0)));
    while i < item.deviations.len()
        invariant
            i <= item.deviations@.len(),
            devs@ == deviations_json(item.deviations@.subrange(0, i as int)),
        decreases item.deviations.len() - i,
    {
        let ghost prev = item.deviations@.subrange(0, i as int);
        let ghost next = item.deviations@.subrange(0, i + 1);
        assert(next.drop_last() =~= prev);
        let d = &item.deviations[i];
        let ghost before = devs@;
        if i > 0 {
            devs.append(",");
        }
        devs.append("{\"kind\":\"");
        append_json_body(&mut devs, d.kind.as_str());
        devs.append("\",\"detail\":\"");
        append_json_body(&mut devs, d.detail.as_str());
        devs.append("\"}");
        proof {
            if i == 0 {
                assert(devs@ =~= deviation_json(*d));
            } else {
                assert(devs@ =~= before + ","@ + deviation_json(*d));
            }
        }
        i = i + 1;
    }
    assert(item.deviations@.subrange(0, item.deviations@.len() as int) =~= item.deviations@);
    let mut out = copy_str("{\"version\":1,\"original_path\":\"");
    append_json_body(&mut out, item.original_path.as_str());
    out.append("\",\"review_path\":\"");
    append_json_body(&mut out, item.review_path.as_str());
    out.append("\",\"final_path\":\"");
    append_json_body(&mut out, item.final_path.as_str());
    out.append("\",\"original_bytes\":");
    append_number(&mut out, item.original_bytes);
    out.append(",\"review_bytes\":");
    append_number(&mut out, item.review_bytes);
    out.append(",\"encoder\":\"");
    append_json_body(&mut out, item.encoder.as_str());
    out.append("\",\"codec\":\"");
    append_json_body(&mut out, item.codec.as_str());
    out.append("\",\"quality\":\"");
    append_json_body(&mut out, item.quality.as_str());
    out.append("\",\"score\":");
    match item.score {
        Some(s) => append_number(&mut out, s as u64),
        None => out.append("null"),
    }
    out.append(",\"target\":");
    append_number(&mut out, item.target as u64);
    out.append(",\"deviations\":[");
    out.append(devs.as_str());
    out.append("]}");
    out
}

/// One entry of a review listing.
pub open spec fn listing_entry(item: ReviewItem) -> Seq<char> {
    "{\"sidecar_path\":"@ + json_quoted(item.sidecar_path@) + ",\"item\":"@ + sidecar_text(item)
        + "}"@
}

pub open spec fn listing_entries(items: Seq<ReviewItem>) -> Seq<char>
    decreases items.len(),
{
    if items.len() == 0 {
        Seq::empty()
    } else if items.len() == 1 {
        listing_entry(items[0])
    } else {
        listing_entries(items.drop_last()) + ","@ + listing_entry(items.last())
    }
}

/// Serializes a list of review items for an embedding front end.
pub fn review_list_json(items: &Vec<ReviewItem>) -> (r: String)
    ensures
        r@ == "{\"reviews\":["@ + listing_entries(items@) + "]}"@,
{
    let mut entries = String::new();
    let mut i: usize = 0;
    assert(entries@ =~= listing_entries(items@.subrange(0, 0)));
    while i < items.len()
        invariant
            i <= items@.len(),
            entries@ == listing_entries(items@.subrange(0, i as int)),
        decreases items.len() - i,
    {
        let ghost prev = items@.subrange(0, i as int);
        let ghost next = items@.subrange(0, i + 1);
        assert(next.drop_last() =~= prev);
        let item = &items[i];
        let ghost before = entries@;
        if i > 0 {
            entries.append(",");
        }
        entries.append("{\"sidecar_path\":");
        append_json(&mut entries, item.sidecar_path.as_str());
        entries.append(",\"item\":");
        let body = sidecar_json(item);
        entries.append(body.as_str());
        entries.append("}");
        proof {
            if i == 0 {
                assert(entries@ =~= listing_entry(*item));
            } else {
                assert(entries@ =~= before + ","@ + listing_entry(*item));
            }
        }
        i = i + 1;
    }
    assert(items@.subrange(0, items@.len() as int) =~= items@);
    let mut out = copy_str("{\"reviews\":[");
    out.append(entries.as_str());
    out.append("]}");
    out
}

/// What an escaped character in a sidecar string stands for.
pub open spec fn sidecar_unescape(c: char) -> char {
    if c == 'n' {
        '\n'
    } else if c == 'r' {
        '\r'
    } else if c == 't' {
        '\t'
    } else {
        c
    }
}

/// The string value that starts at `s[i]`, read up to its closing quote,
/// given what has been read so far; none when the quote never comes.
pub open spec fn scan_string(s: Seq<char>, i: int, acc: Seq<char>) -> Option<Seq<char>>
    decreases s.len() - i,
{
    if i < 0 || i >= s.len() {
        None
    } else if s[i] == '"' {
        Some(acc)
    } else if s[i] == '\\' {
        if i + 1 >= s.len() {
            None
        } else {
            scan_string(s, i + 2, acc.push(sidecar_unescape(s[i + 1])))
        }
    } else {
        scan_string(s, i + 1, acc.push(s[i]))
    }
}

pub open spec fn field_needle(key: Seq<char>) -> Seq<char> {
    "\""@ + key + "\":\""@
}

/// The string field `key` of a sidecar document: the value after the first
/// `"key":"`, with its escapes undone.
pub open spec fn field_value(text: Seq<char>, key: Seq<char>) -> Option<Seq<char>> {
    match find_at(text, field_needle(key), 0) {
        Some(i) => scan_string(text, i + field_needle(key).len(), Seq::empty()),
        None => None,
    }
}

fn empty_string() -> (e: String)
    ensures
        e@ == Seq::<char>::empty(),
{
    let e = String::new();
    assert(e@ =~= Seq::<char>::empty());
    e
}

/// Reads one string field out of a sidecar document.
pub fn field(text: &str, key: &str) -> (r: Option<String>)
    ensures
        match r {
            Some(v) => field_value(text@, key@) == Some(v@),
            None => field_value(text@, key@) is None,
        },
{
    let needle = join3("\"", key, "\":\"");
    let start = match find_str(text, needle.as_str()) {
        Some(i) => i,
        None => {
            return None;
        },
    };
    let v = chars_of(text);
    let nl = needle.as_str().unicode_len();
    if start > v.len() || nl > v.len() - start {
        proof {
            crate::text::lemma_find_at_some(text@, needle@, 0);
        }
        return None;
    }
    let mut i = start + nl;
    let mut value = String::new();
    assert(value@ =~= Seq::<char>::empty());
    while i < v.len()
        invariant
            v@ == text@,
            i <= v.len(),
            field_value(text@, key@) == scan_string(v@, i as int, value@),
        decreases v.len() - i,
    {
        let c = v[i];
        if c == '"' {
            return Some(value);
        }
        if c == '\\' {
            if i + 1 >= v.len() {
                return None;
            }
            let e = v[i + 1];
            let decoded = if e == 'n' {
                '\n'
            } else if e == 'r' {
                '\r'
            } else if e == 't' {
                '\t'
            } else {
                e
            };
            push_char(&mut value, decoded);
            i = i + 2;
        } else {
            push_char(&mut value, c);
            i = i + 1;
        }
    }
    None
}

/// Where the run of digits that starts at `s[i]` ends.
pub open spec fn digits_end(s: Seq<char>, i: int) -> int
    decreases s.len() - i,
{
    if i < 0 || i >= s.len() || !is_digit(s[i]) {
        i
    } else {
        digits_end(s, i + 1)
    }
}

/// The numeric field `key` of a sidecar document: the digits right after the
/// first `"key":`; none for a missing or `null` field, or one too large.
pub open spec fn number_value(text: Seq<char>, key: Seq<char>) -> Option<u64> {
    let needle = "\""@ + key + "\":"@;
    match find_at(text, needle, 0) {
        Some(i) => {
            let start = i + needle.len();
            let digits = text.subrange(start, digits_end(text, start));
            if digits.len() > 0 && digits_value(digits) <= u64::MAX {
                Some(digits_value(digits) as u64)
            } else {
                None
            }
        },
        None => None,
    }
}

pub proof fn lemma_digits_end(s: Seq<char>, i: int, j: int)
    requires
        0 <= i <= j <= s.len(),
        forall|k: int| i <= k < j ==> is_digit(s[k]),
        j == s.len() || !is_digit(s[j]),
    ensures
        digits_end(s, i) == j,
    decreases j - i,
{
    if i < j {
        lemma_digits_end(s, i + 1, j);
    }
}

/// Reads one numeric field out of a sidecar document.
pub fn number(text: &str, key: &str) -> (r: Option<u64>)
    ensures
        r == number_value(text@, key@),
{
    let needle = join3("\"", key, "\":");
    let start = match find_str(text, needle.as_str()) {
        Some(i) => i,
        None => {
            return None;
        },
    };
    proof {
        crate::text::lemma_find_at_some(text@, needle@, 0);
    }
    let v = chars_of(text);
    let nl = needle.as_str().unicode_len();
    let from = start + nl;
    let mut end = from;
    while end < v.len() && crate::text::char_is_digit(v[end])
        invariant
            v@ == text@,
            from <= end <= v.len(),
            forall|k: int| from <= k < end ==> is_digit(v@[k]),
        decreases v.len() - end,
    {
        end = end + 1;
    }
    proof {
        lemma_digits_end(v@, from as int, end as int);
        let digits = v@.subrange(from as int, end as int);
        assert forall|k: int| 0 <= k < digits.len() implies is_digit(#[trigger] digits[k]) by {
            assert(digits[k] == v@[from + k]);
        }
    }
    if end == from {
        return None;
    }
    match crate::text::digits_upto(&v, from, end, 0xFFFF_FFFF_FFFF_FFFF) {
        Some(x) => Some(x),
        None => None,
    }
}

/// The `{"kind":` marker each deviation object starts with.
pub open spec fn kind_marker() -> Seq<char> {
    "{\"kind\":"@
}

/// The deviations the chunks after each `{"kind":` marker describe; a chunk
/// without a readable kind is dropped, and a missing detail is empty.
pub open spec fn deviations_from(chunks: Seq<Seq<char>>) -> Seq<(Seq<char>, Seq<char>)>
    decreases chunks.len(),
{
    if chunks.len() == 0 {
        Seq::empty()
    } else {
        let rest = deviations_from(chunks.drop_last());
        let c = kind_marker() + chunks.last();
        match field_value(c, "kind"@) {
            Some(k) => rest.push(
                (
                    k,
                    match field_value(c, "detail"@) {
                        Some(d) => d,
                        None => Seq::empty(),
                    },
                ),
            ),
            None => rest,
        }
    }
}

/// The deviation list of a sidecar document: the text from the first
/// `"deviations":[` up to the next `]`, split at each `{"kind":`.
pub open spec fn deviations_value(text: Seq<char>) -> Seq<(Seq<char>, Seq<char>)> {
    match find_at(text, "\"deviations\":["@, 0) {
        None => Seq::empty(),
        Some(start) => {
            let rest = text.subrange(start, text.len() as int);
            match find_at(rest, "]"@, 0) {
                None => Seq::empty(),
                Some(end) => {
                    let pieces = split_on(rest.subrange(0, end), kind_marker());
                    if pieces.len() == 0 {
                        Seq::empty()
                    } else {
                        deviations_from(pieces.drop_first())
                    }
                },
            }
        },
    }
}

pub open spec fn deviation_views(ds: Seq<Deviation>) -> Seq<(Seq<char>, Seq<char>)> {
    ds.map_values(|d: Deviation| (d.kind@, d.detail@))
}

/// Reads the deviation list out of a sidecar document.
pub fn deviations(text: &str) -> (r: Vec<Deviation>)
    ensures
        deviation_views(r@) == deviations_value(text@),
{
    let mut out: Vec<Deviation> = Vec::new();
    assert(deviation_views(out@) =~= Seq::<(Seq<char>, Seq<char>)>::empty());
    let start = match find_str(text, "\"deviations\":[") {
        Some(i) => i,
        None => {
            return out;
        },
    };
    proof {
        crate::text::lemma_find_at_some(text@, "\"deviations\":["@, 0);
    }
    let v = chars_of(text);
    let rest = collect_range(&v, start, v.len());
    let end = match find_str(rest.as_str(), "]") {
        Some(i) => i,
        None => {
            return out;
        },
    };
    proof {
        crate::text::lemma_find_at_some(rest@, "]"@, 0);
    }
    let rv = chars_of(rest.as_str());
    let segment = collect_range(&rv, 0, end);
    proof {
        reveal_strlit("{\"kind\":");
    }
    let pieces = split_str(segment.as_str(), "{\"kind\":");
    if pieces.len() == 0 {
        return out;
    }
    let ghost chunks = views(pieces@).drop_first();
    let mut i: usize = 1;
    assert(chunks.subrange(0, 0) =~= Seq::<Seq<char>>::empty());
    while i < pieces.len()
        invariant
            1 <= i <= pieces@.len(),
            chunks == views(pieces@).drop_first(),
            deviation_views(out@) == deviations_from(chunks.subrange(0, i - 1)),
        decreases pieces.len() - i,
    {
        let ghost prev = chunks.subrange(0, i - 1);
        let ghost next = chunks.subrange(0, i as int);
        assert(next.drop_last() =~= prev);
        assert(next.last() == pieces@[i as int]@);
        let chunk = join2("{\"kind\":", pieces[i].as_str());
        match field(chunk.as_str(), "kind") {
            Some(kind) => {
                let detail = match field(chunk.as_str(), "detail") {
                    Some(d) => d,
                    None => {
                        let e = String::new();
                        assert(e@ =~= Seq::<char>::empty());
                        e
                    },
                };
                let ghost before = deviation_views(out@);
                let ghost dv = (kind@, detail@);
                out.push(Deviation { kind, detail });
                assert(deviation_views(out@) =~= before.push(dv));
            },
            None => {},
        }
        i = i + 1;
    }
    assert(chunks.subrange(0, chunks.len() as int) =~= chunks);
    out
}

/// The review a sidecar document describes, read back. `sidecar_path` is
/// where the document was found; the three paths are required and
/// everything else defaults when missing.
pub fn sidecar_item(text: &str, sidecar_path: &str) -> (r: Option<ReviewItem>)
    ensures
        match (
            field_value(text@, "original_path"@),
            field_value(text@, "review_path"@),
            field_value(text@, "final_path"@),
        ) {
            (Some(o), Some(rv), Some(f)) => r matches Some(item) && {
                &&& item.original_path@ == o
                &&& item.review_path@ == rv
                &&& item.final_path@ == f
                &&& item.sidecar_path@ == sidecar_path@
                &&& item.original_bytes == (match number_value(text@, "original_bytes"@) {
                    Some(x) => x,
                    None => 0u64,
                })
                &&& item.review_bytes == (match number_value(text@, "review_bytes"@) {
                    Some(x) => x,
                    None => 0u64,
                })
                &&& Some(item.encoder@) == (match field_value(text@, "encoder"@) {
                    Some(x) => Some(x),
                    None => Some(Seq::<char>::empty()),
                })
                &&& Some(item.codec@) == (match field_value(text@, "codec"@) {
                    Some(x) => Some(x),
                    None => Some(Seq::<char>::empty()),
                })
                &&& Some(item.quality@) == (match field_value(text@, "quality"@) {
                    Some(x) => Some(x),
                    None => Some(Seq::<char>::empty()),
                })
                &&& item.score == (match number_value(text@, "score"@) {
                    Some(x) => Some(x as u32),
                    None => None,
                })
                &&& item.target == (match number_value(text@, "target"@) {
                    Some(x) => x as u32,
                    None => 0u32,
                })
                &&& deviation_views(item.deviations@) == deviations_value(text@)
            },
            _ => r is None,
        },
{
    let original_path = match field(text, "original_path") {
        Some(v) => v,
        None => {
            return None;
        },
    };
    let review_path = match field(text, "review_path") {
        Some(v) => v,
        None => {
            return None;
        },
    };
    let final_path = match field(text, "final_path") {
        Some(v) => v,
        None => {
            return None;
        },
    };
    Some(
        ReviewItem {
            original_path,
            review_path,
            sidecar_path: copy_str(sidecar_path),
            final_path,
            original_bytes: match number(text, "original_bytes") {
                Some(x) => x,
                None => 0,
            },
            review_bytes: match number(text, "review_bytes") {
                Some(x) => x,
                None => 0,
            },
            encoder: match field(text, "encoder") {
                Some(x) => x,
                None => empty_string(),
            },
            codec: match field(text, "codec") {
                Some(x) => x,
                None => empty_string(),
            },
            quality: match field(text, "quality") {
                Some(x) => x,
                None => empty_string(),
            },
            score: match number(text, "score") {
                Some(x) => Some(x as u32),
                None => None,
            },
            target: match number(text, "target") {
                Some(x) => x as u32,
                None => 0,
            },
            deviations: deviations(text),
        },
    )
}

} // verus!
