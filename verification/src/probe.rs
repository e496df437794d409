//! Reading ffprobe's compact stream listing.
//!
//! `ffprobe -of compact=p=0:nk=0` prints one record per line as
//! `key=value|key=value`, escaping `|`, `=` and control characters with a
//! backslash. Titles and handler names are free text, so the record has to be
//! split on unescaped separators first and decoded afterwards.
use vstd::prelude::*;
use crate::text::{
    chars_of, collect_all, copy_str, eq_ignore_case, eq_ignore_case_str, hex_text, lines,
    parse_hex_u32, parse_u32, parse_usize, push_char, split_lines, starts_with, starts_with_str,
    str_eq, trim, trimmed, unsigned_text, views,
};

verus! {

/// The fields of `s[i..]`, split at unescaped `sep`, given the field being
/// read (`cur`) and those already complete (`done`). A backslash keeps the
/// next character in the field, escape and all.
pub open spec fn split_from(s: Seq<char>, sep: char, i: int, cur: Seq<char>, done: Seq<Seq<char>>) -> Seq<Seq<char>>
    decreases s.len() - i,
{
    if i < 0 || i >= s.len() {
        done.push(cur)
    } else if s[i] == sep {
        split_from(s, sep, i + 1, Seq::empty(), done.push(cur))
    } else if s[i] == '\\' && i + 1 < s.len() {
        split_from(s, sep, i + 2, cur.push(s[i]).push(s[i + 1]), done)
    } else {
        split_from(s, sep, i + 1, cur.push(s[i]), done)
    }
}

/// A record split at unescaped separators; there is always at least one
/// field.
pub open spec fn split_unescaped(s: Seq<char>, sep: char) -> Seq<Seq<char>> {
    split_from(s, sep, 0, Seq::empty(), Seq::empty())
}

/// Splits ffprobe compact text on unescaped separators, keeping escape
/// sequences for later decoding.
pub fn split_compact_unescaped(text: &str, separator: char) -> (r: Vec<String>)
    ensures
        views(r@) == split_unescaped(text@, separator),
{
    let v = chars_of(text);
    let mut fields: Vec<String> = Vec::new();
    let mut cur = String::new();
    let mut i: usize = 0;
    assert(cur@ =~= Seq::<char>::empty());
    assert(views(fields@) =~= Seq::<Seq<char>>::empty());
    while i < v.len()
        invariant
            v@ == text@,
            i <= v.len(),
            split_unescaped(text@, separator) == split_from(v@, separator, i as int, cur@, views(fields@)),
        decreases v.len() - i,
    {
        let ch = v[i];
        if ch == separator {
            let done = cur;
            let ghost before = views(fields@);
            let ghost dv = done@;
            fields.push(done);
            cur = String::new();
            assert(views(fields@) =~= before.push(dv));
            assert(cur@ =~= Seq::<char>::empty());
            i = i + 1;
        } else if ch == '\\' && i + 1 < v.len() {
            push_char(&mut cur, ch);
            push_char(&mut cur, v[i + 1]);
            i = i + 2;
        } else {
            push_char(&mut cur, ch);
            i = i + 1;
        }
    }
    let ghost before = views(fields@);
    let ghost cv = cur@;
    fields.push(cur);
    assert(views(fields@) =~= before.push(cv));
    fields
}

/// What one escaped character stands for.
pub open spec fn unescape_char(c: char) -> char {
    if c == 'n' {
        '\n'
    } else if c == 'r' {
        '\r'
    } else if c == 't' {
        '\t'
    } else if c == 'f' {
        '\u{000c}'
    } else if c == 'b' {
        '\u{0008}'
    } else {
        c
    }
}

/// The text `s[i..]` stands for once its C-style escapes are decoded; a
/// lone backslash at the end stands for itself.
pub open spec fn decode_from(s: Seq<char>, i: int) -> Seq<char>
    decreases s.len() - i,
{
    if i < 0 || i >= s.len() {
        Seq::empty()
    } else if s[i] != '\\' {
        seq![s[i]] + decode_from(s, i + 1)
    } else if i + 1 >= s.len() {
        seq!['\\']
    } else {
        seq![unescape_char(s[i + 1])] + decode_from(s, i + 2)
    }
}

/// Decodes the escapes of one compact field.
pub fn decode_compact_escapes(text: &str) -> (r: String)
    ensures
        r@ == decode_from(text@, 0),
{
    let v = chars_of(text);
    let mut out = String::new();
    let mut i: usize = 0;
    assert(out@ + decode_from(v@, 0) =~= decode_from(v@, 0));
    while i < v.len()
        invariant
            v@ == text@,
            i <= v.len(),
            decode_from(text@, 0) == out@ + decode_from(v@, i as int),
        decreases v.len() - i,
    {
        let ghost before = out@;
        let ch = v[i];
        if ch != '\\' {
            push_char(&mut out, ch);
            i = i + 1;
            assert(before + decode_from(v@, i - 1) =~= out@ + decode_from(v@, i as int));
        } else if i + 1 >= v.len() {
            push_char(&mut out, '\\');
            i = i + 1;
            assert(decode_from(v@, i as int) =~= Seq::<char>::empty());
            assert(before + decode_from(v@, i - 1) =~= out@ + decode_from(v@, i as int));
        } else {
            let e = v[i + 1];
            let decoded = if e == 'n' {
                '\n'
            } else if e == 'r' {
                '\r'
            } else if e == 't' {
                '\t'
            } else if e == 'f' {
                '\u{000c}'
            } else if e == 'b' {
                '\u{0008}'
            } else {
                e
            };
            push_char(&mut out, decoded);
            i = i + 2;
            assert(before + decode_from(v@, i - 2) =~= out@ + decode_from(v@, i as int));
        }
    }
    assert(decode_from(v@, i as int) =~= Seq::<char>::empty());
    assert(out@ + Seq::<char>::empty() =~= out@);
    out
}

/// Parts joined back together with `=` between them.
pub open spec fn join_eq(parts: Seq<Seq<char>>) -> Seq<char>
    decreases parts.len(),
{
    if parts.len() == 0 {
        Seq::empty()
    } else if parts.len() == 1 {
        parts[0]
    } else {
        join_eq(parts.drop_last()) + seq!['='] + parts.last()
    }
}

/// The `key=value` pairs of the raw fields `fs`, decoded; a field without an
/// unescaped `=` is dropped, and a value may itself hold escaped `=`.
pub open spec fn pairs_of(fs: Seq<Seq<char>>) -> Seq<(Seq<char>, Seq<char>)>
    decreases fs.len(),
{
    if fs.len() == 0 {
        Seq::empty()
    } else {
        let rest = pairs_of(fs.drop_last());
        let parts = split_unescaped(fs.last(), '=');
        if parts.len() >= 2 {
            rest.push((decode_from(parts[0], 0), decode_from(join_eq(parts.drop_first()), 0)))
        } else {
            rest
        }
    }
}

/// The decoded `key=value` pairs of one compact record, in order.
pub open spec fn compact_fields(line: Seq<char>) -> Seq<(Seq<char>, Seq<char>)> {
    pairs_of(split_unescaped(line, '|'))
}

fn join_with_eq(parts: &Vec<String>, from: usize) -> (r: String)
    requires
        from <= parts.len(),
    ensures
        r@ == join_eq(views(parts@).subrange(from as int, parts@.len() as int)),
{
    let ghost all = views(parts@);
    let mut out = String::new();
    let mut i = from;
    assert(all.subrange(from as int, from as int) =~= Seq::<Seq<char>>::empty());
    while i < parts.len()
        invariant
            from <= i <= parts.len(),
            all == views(parts@),
            out@ == join_eq(all.subrange(from as int, i as int)),
        decreases parts.len() - i,
    {
        let ghost prev = all.subrange(from as int, i as int);
        let ghost next = all.subrange(from as int, i + 1);
        assert(next.drop_last() =~= prev);
        assert(next.last() == parts@[i as int]@);
        if i > from {
            push_char(&mut out, '=');
        }
        out.append(parts[i].as_str());
        i = i + 1;
        proof {
            if i == from + 1 {
                assert(out@ =~= join_eq(next));
            }
        }
    }
    out
}

pub open spec fn pair_views(v: Seq<(String, String)>) -> Seq<(Seq<char>, Seq<char>)> {
    v.map_values(|p: (String, String)| (p.0@, p.1@))
}

/// Splits one compact record into decoded `key=value` pairs.
pub fn parse_compact_fields(line: &str) -> (r: Vec<(String, String)>)
    ensures
        pair_views(r@) == compact_fields(line@),
{
    let fields = split_compact_unescaped(line, '|');
    let ghost fs = views(fields@);
    let mut out: Vec<(String, String)> = Vec::new();
    let mut i: usize = 0;
    assert(fs.subrange(0, 0) =~= Seq::<Seq<char>>::empty());
    assert(pair_views(out@) =~= Seq::<(Seq<char>, Seq<char>)>::empty());
    while i < fields.len()
        invariant
            i <= fields.len(),
            fs == views(fields@),
            pair_views(out@) == pairs_of(fs.subrange(0, i as int)),
        decreases fields.len() - i,
    {
        let ghost prev = fs.subrange(0, i as int);
        let ghost next = fs.subrange(0, i + 1);
        assert(next.drop_last() =~= prev);
        assert(next.last() == fields@[i as int]@);
        let parts = split_compact_unescaped(fields[i].as_str(), '=');
        if parts.len() >= 2 {
            let key = decode_compact_escapes(parts[0].as_str());
            let joined = join_with_eq(&parts, 1);
            let value = decode_compact_escapes(joined.as_str());
            proof {
                assert(views(parts@).drop_first() =~= views(parts@).subrange(1, parts@.len() as int));
                assert(views(parts@)[0] == parts@[0]@);
            }
            let ghost before = pair_views(out@);
            let ghost pv = (key@, value@);
            out.push((key, value));
            assert(pair_views(out@) =~= before.push(pv));
        }
        i = i + 1;
    }
    assert(fs.subrange(0, fs.len() as int) =~= fs);
    out
}

/// A probe field that carries information: not blank, `N/A` or `unknown`.
pub open spec fn known_value(v: Seq<char>) -> Option<Seq<char>> {
    let t = trim(v);
    if t.len() == 0 || eq_ignore_case(t, "N/A"@) || eq_ignore_case(t, "unknown"@) {
        None
    } else {
        Some(t)
    }
}

/// A probe field that is blank, `N/A` or `unknown` (in any case, with space
/// around it) carries nothing; a colour field that is `unspecified` or
/// `reserved` carries nothing either; an aspect ratio of `0:1` or `0/1`
/// carries nothing; and any other field carries its trimmed text.
pub proof fn placeholders_carry_nothing(v: Seq<char>)
    ensures
        trim(v).len() == 0 || eq_ignore_case(trim(v), "N/A"@) || eq_ignore_case(trim(v), "unknown"@)
            ==> known_value(v) is None && known_color(v) is None,
        eq_ignore_case(trim(v), "unspecified"@) || eq_ignore_case(trim(v), "reserved"@)
            ==> known_color(v) is None,
        trim(v).len() == 0 || eq_ignore_case(trim(v), "N/A"@) || trim(v) == "0:1"@ || trim(v) == "0/1"@
            ==> known_ratio(v) is None,
        !(trim(v).len() == 0 || eq_ignore_case(trim(v), "N/A"@) || eq_ignore_case(trim(v), "unknown"@))
            ==> known_value(v) == Some(trim(v)),
{
}

/// Converts an ffprobe field into optional metadata.
pub fn known_probe_value(value: &str) -> (r: Option<String>)
    ensures
        match r {
            Some(s) => known_value(value@) == Some(s@),
            None => known_value(value@) is None,
        },
{
    let t = trimmed(value);
    let ts = t.as_str();
    if ts.unicode_len() == 0 || eq_ignore_case_str(ts, "N/A") || eq_ignore_case_str(ts, "unknown") {
        None
    } else {
        Some(t)
    }
}

/// A track ID in decimal or `0x`-prefixed hexadecimal; zero is no ID.
pub open spec fn track_id_of(v: Seq<char>) -> Option<u32> {
    let t = trim(v);
    let parsed: Option<nat> = if starts_with(t, "0x"@) || starts_with(t, "0X"@) {
        hex_text(t.subrange(2, t.len() as int))
    } else {
        unsigned_text(t)
    };
    match parsed {
        Some(x) => if 0 < x <= u32::MAX {
            Some(x as u32)
        } else {
            None
        },
        None => None,
    }
}

/// Parses an ffprobe track ID.
pub fn parse_track_id(value: &str) -> (r: Option<u32>)
    ensures
        r == track_id_of(value@),
{
    let t = trimmed(value);
    let ts = t.as_str();
    let parsed = if starts_with_str(ts, "0x") || starts_with_str(ts, "0X") {
        proof {
            reveal_strlit("0x");
            reveal_strlit("0X");
        }
        let v = chars_of(ts);
        let rest = crate::text::collect_range(&v, 2, v.len());
        parse_hex_u32(rest.as_str())
    } else {
        parse_u32(ts)
    };
    match parsed {
        Some(x) => if x != 0 {
            Some(x)
        } else {
            None
        },
        None => None,
    }
}

/// One stream of a source or output file, as ffprobe reports it.
#[derive(Debug, Clone, PartialEq, Eq)]
pub struct StreamInfo {
    /// The stream's actual index in the file.
    pub index: usize,
    pub codec_type: String,
    pub codec_name: String,
    pub codec_tag_string: Option<String>,
    pub track_id: Option<u32>,
    pub handler_name: Option<String>,
}

/// A `StreamInfo` with its strings read as characters.
pub struct StreamModel {
    pub index: usize,
    pub codec_type: Seq<char>,
    pub codec_name: Seq<char>,
    pub codec_tag_string: Option<Seq<char>>,
    pub track_id: Option<u32>,
    pub handler_name: Option<Seq<char>>,
}

pub open spec fn opt_chars(o: Option<String>) -> Option<Seq<char>> {
    match o {
        Some(s) => Some(s@),
        None => None,
    }
}

impl StreamInfo {
    pub open spec fn model(&self) -> StreamModel {
        StreamModel {
            index: self.index,
            codec_type: self.codec_type@,
            codec_name: self.codec_name@,
            codec_tag_string: opt_chars(self.codec_tag_string),
            track_id: self.track_id,
            handler_name: opt_chars(self.handler_name),
        }
    }
}

pub open spec fn stream_models(v: Seq<StreamInfo>) -> Seq<StreamModel> {
    v.map_values(|s: StreamInfo| s.model())
}

/// What one record says so far; a key given twice keeps its last value.
pub struct Partial {
    pub index: Option<usize>,
    pub codec_type: Option<Seq<char>>,
    pub codec_name: Option<Seq<char>>,
    pub codec_tag_string: Option<Seq<char>>,
    pub track_id: Option<u32>,
    pub handler_name: Option<Seq<char>>,
}

pub open spec fn usize_text(v: Seq<char>) -> Option<usize> {
    match unsigned_text(v) {
        Some(x) => if x <= usize::MAX {
            Some(x as usize)
        } else {
            None
        },
        None => None,
    }
}

pub open spec fn absorb(p: Partial, key: Seq<char>, value: Seq<char>) -> Partial {
    if key == "index"@ {
        Partial { index: usize_text(value), ..p }
    } else if key == "codec_type"@ {
        Partial { codec_type: Some(value), ..p }
    } else if key == "codec_name"@ {
        Partial { codec_name: Some(value), ..p }
    } else if key == "codec_tag_string"@ {
        Partial { codec_tag_string: known_value(value), ..p }
    } else if key == "id"@ {
        Partial { track_id: track_id_of(value), ..p }
    } else if key == "tag:handler_name"@ || key == "TAG:handler_name"@ {
        Partial { handler_name: known_value(value), ..p }
    } else {
        p
    }
}

pub open spec fn record_of(fields: Seq<(Seq<char>, Seq<char>)>) -> Partial
    decreases fields.len(),
{
    if fields.len() == 0 {
        Partial {
            index: None,
            codec_type: None,
            codec_name: None,
            codec_tag_string: None,
            track_id: None,
            handler_name: None,
        }
    } else {
        absorb(record_of(fields.drop_last()), fields.last().0, fields.last().1)
    }
}

/// The streams of lines `ls[..i]`: each record with an index and a type, in
/// probe order, keeping only the first record for each index.
pub open spec fn probe_streams_of(ls: Seq<Seq<char>>) -> Seq<StreamModel>
    decreases ls.len(),
{
    if ls.len() == 0 {
        Seq::empty()
    } else {
        let acc = probe_streams_of(ls.drop_last());
        let p = record_of(compact_fields(ls.last()));
        match (p.index, p.codec_type) {
            (Some(ix), Some(t)) => if exists|j: int| 0 <= j < acc.len() && (#[trigger] acc[j]).index == ix {
                acc
            } else {
                acc.push(
                    StreamModel {
                        index: ix,
                        codec_type: t,
                        codec_name: match p.codec_name {
                            Some(n) => n,
                            None => "unknown"@,
                        },
                        codec_tag_string: p.codec_tag_string,
                        track_id: p.track_id,
                        handler_name: p.handler_name,
                    },
                )
            },
            _ => acc,
        }
    }
}

/// Parses ffprobe's compact stream records, keeping the actual stream
/// indexes; a stream reported twice is kept once, where it first appeared.
pub fn parse_stream_probe(text: &str) -> (r: Vec<StreamInfo>)
    ensures
        stream_models(r@) == probe_streams_of(lines(text@)),
        forall|a: int, b: int| 0 <= a < b < r@.len() ==> (#[trigger] r@[a]).index != (#[trigger] r@[b]).index,
{
    let all_lines = split_lines(text);
    let ghost ls = lines(text@);
    let mut streams: Vec<StreamInfo> = Vec::new();
    let mut i: usize = 0;
    assert(ls.subrange(0, 0) =~= Seq::<Seq<char>>::empty());
    assert(stream_models(streams@) =~= Seq::<StreamModel>::empty());
    while i < all_lines.len()
        invariant
            all_lines@.len() == ls.len(),
            ls == lines(text@),
            forall|q: int| 0 <= q < all_lines@.len() ==> (#[trigger] all_lines@[q])@ == ls[q],
            i <= all_lines.len(),
            stream_models(streams@) == probe_streams_of(ls.subrange(0, i as int)),
            forall|a: int, b: int| 0 <= a < b < streams@.len() ==> (#[trigger] streams@[a]).index != (#[trigger] streams@[b]).index,
        decreases all_lines.len() - i,
    {
        let ghost prev = ls.subrange(0, i as int);
        let ghost next = ls.subrange(0, i + 1);
        assert(next.drop_last() =~= prev);
        assert(next.last() == all_lines@[i as int]@);
        let fields = parse_compact_fields(all_lines[i].as_str());
        let ghost fv = pair_views(fields@);
        let mut index: Option<usize> = None;
        let mut codec_type: Option<String> = None;
        let mut codec_name: Option<String> = None;
        let mut codec_tag_string: Option<String> = None;
        let mut track_id: Option<u32> = None;
        let mut handler_name: Option<String> = None;
        let mut f: usize = 0;
        assert(fv.subrange(0, 0) =~= Seq::<(Seq<char>, Seq<char>)>::empty());
        while f < fields.len()
            invariant
                f <= fields.len(),
                fv == pair_views(fields@),
                ({
                    let p = record_of(fv.subrange(0, f as int));
                    &&& p.index == index
                    &&& p.codec_type == opt_chars(codec_type)
                    &&& p.codec_name == opt_chars(codec_name)
                    &&& p.codec_tag_string == opt_chars(codec_tag_string)
                    &&& p.track_id == track_id
                    &&& p.handler_name == opt_chars(handler_name)
                }),
            decreases fields.len() - f,
        {
            let ghost fprev = fv.subrange(0, f as int);
            let ghost fnext = fv.subrange(0, f + 1);
            assert(fnext.drop_last() =~= fprev);
            assert(fnext.last() == (fields@[f as int].0@, fields@[f as int].1@));
            let key = fields[f].0.as_str();
            let value = fields[f].1.as_str();
            if str_eq(key, "index") {
                index = parse_usize(value);
            } else if str_eq(key, "codec_type") {
                codec_type = Some(copy_str(value));
            } else if str_eq(key, "codec_name") {
                codec_name = Some(copy_str(value));
            } else if str_eq(key, "codec_tag_string") {
                codec_tag_string = known_probe_value(value);
            } else if str_eq(key, "id") {
                track_id = parse_track_id(value);
            } else if str_eq(key, "tag:handler_name") || str_eq(key, "TAG:handler_name") {
                handler_name = known_probe_value(value);
            }
            f = f + 1;
        }
        assert(fv.subrange(0, fv.len() as int) =~= fv);
        if let (Some(ix), Some(ct)) = (index, codec_type) {
            let mut seen = false;
            let mut j: usize = 0;
            while j < streams.len()
                invariant
                    j <= streams.len(),
                    seen <==> exists|q: int| 0 <= q < j && (#[trigger] streams@[q]).index == ix,
                decreases streams.len() - j,
            {
                if streams[j].index == ix {
                    seen = true;
                }
                j = j + 1;
            }
            proof {
                let acc = probe_streams_of(prev);
                assert(acc == stream_models(streams@));
                if seen {
                    let q = choose|q: int| 0 <= q < streams@.len() && (#[trigger] streams@[q]).index == ix;
                    assert(acc[q].index == ix);
                }
                if exists|q: int| 0 <= q < acc.len() && (#[trigger] acc[q]).index == ix {
                    let q = choose|q: int| 0 <= q < acc.len() && (#[trigger] acc[q]).index == ix;
                    assert(streams@[q].model() == acc[q]);
                }
            }
            if !seen {
                let name = match codec_name {
                    Some(n) => n,
                    None => copy_str("unknown"),
                };
                let ghost before = streams@;
                let stream = StreamInfo {
                    index: ix,
                    codec_type: ct,
                    codec_name: name,
                    codec_tag_string,
                    track_id,
                    handler_name,
                };
                let ghost sm = stream.model();
                streams.push(stream);
                assert(stream_models(streams@) =~= stream_models(before).push(sm));
            }
        }
        i = i + 1;
    }
    assert(ls.subrange(0, ls.len() as int) =~= ls);
    streams
}

/// A colour field that names something: not blank, `N/A`, `unknown`,
/// `unspecified` or `reserved`.
pub open spec fn known_color(v: Seq<char>) -> Option<Seq<char>> {
    let t = trim(v);
    if t.len() == 0 || eq_ignore_case(t, "N/A"@) || eq_ignore_case(t, "unknown"@) || eq_ignore_case(
        t,
        "unspecified"@,
    ) || eq_ignore_case(t, "reserved"@) {
        None
    } else {
        Some(t)
    }
}

/// Reads a colour field of a probe.
pub fn known_color_value(value: &str) -> (r: Option<String>)
    ensures
        match r {
            Some(s) => known_color(value@) == Some(s@),
            None => known_color(value@) is None,
        },
{
    let t = trimmed(value);
    let ts = t.as_str();
    if ts.unicode_len() == 0 || eq_ignore_case_str(ts, "N/A") || eq_ignore_case_str(ts, "unknown")
        || eq_ignore_case_str(ts, "unspecified") || eq_ignore_case_str(ts, "reserved") {
        None
    } else {
        Some(t)
    }
}

/// An aspect ratio that names something: not blank, `N/A`, `0:1` or `0/1`.
pub open spec fn known_ratio(v: Seq<char>) -> Option<Seq<char>> {
    let t = trim(v);
    if t.len() == 0 || eq_ignore_case(t, "N/A"@) || t == "0:1"@ || t == "0/1"@ {
        None
    } else {
        Some(t)
    }
}

/// Reads an aspect-ratio field of a probe.
pub fn known_ratio_value(value: &str) -> (r: Option<String>)
    ensures
        match r {
            Some(s) => known_ratio(value@) == Some(s@),
            None => known_ratio(value@) is None,
        },
{
    let t = trimmed(value);
    let ts = t.as_str();
    if ts.unicode_len() == 0 || eq_ignore_case_str(ts, "N/A") || str_eq(ts, "0:1") || str_eq(ts, "0/1") {
        None
    } else {
        Some(t)
    }
}

} // verus!
