//! Reading ffprobe's `key=value` report of a file's first video stream.
//!
//! Every field but the frame rates and the duration is read here. Those two
//! are decimal ratios and seconds, read as floating point by the caller: the
//! frame rates are handed over as every value the report gave, in order,
//! and the duration as the last value given.
use vstd::prelude::*;
use crate::probe::{known_color, known_color_value, known_ratio, known_ratio_value, opt_chars};
use crate::text::{
    chars_of, collect_range, eq_ignore_case, eq_ignore_case_str, first_of, lines, parse_u32,
    parse_unsigned_upto, position_of, split_lines, str_eq, trim, trimmed, unsigned_text, views,
};

verus! {

/// Where a report key's value goes: 0 to 15 for the fields whose last
/// value is kept (codec name, profile, width, height, sample and display
/// aspect ratios, field order, duration, pixel format, bits per raw sample,
/// colour range, space, transfer and primaries, chroma location, encoder
/// tag), 16 and 17 for the average and nominal frame rates, 18 for the bit
/// rate, and 19 for every other key.
pub open spec fn key_slot(k: Seq<char>) -> int {
    if k == "codec_name"@ {
        0
    } else if k == "profile"@ {
        1
    } else if k == "width"@ {
        2
    } else if k == "height"@ {
        3
    } else if k == "sample_aspect_ratio"@ {
        4
    } else if k == "display_aspect_ratio"@ {
        5
    } else if k == "field_order"@ {
        6
    } else if k == "duration"@ {
        7
    } else if k == "pix_fmt"@ {
        8
    } else if k == "bits_per_raw_sample"@ {
        9
    } else if k == "color_range"@ {
        10
    } else if k == "color_space"@ {
        11
    } else if k == "color_transfer"@ {
        12
    } else if k == "color_primaries"@ {
        13
    } else if k == "chroma_location"@ {
        14
    } else if k == "TAG:encoder"@ {
        15
    } else if k == "avg_frame_rate"@ {
        16
    } else if k == "r_frame_rate"@ {
        17
    } else if k == "bit_rate"@ {
        18
    } else {
        19
    }
}

fn key_slot_of(key: &str) -> (r: usize)
    ensures
        r == key_slot(key@),
{
    if str_eq(key, "codec_name") {
        0
    } else if str_eq(key, "profile") {
        1
    } else if str_eq(key, "width") {
        2
    } else if str_eq(key, "height") {
        3
    } else if str_eq(key, "sample_aspect_ratio") {
        4
    } else if str_eq(key, "display_aspect_ratio") {
        5
    } else if str_eq(key, "field_order") {
        6
    } else if str_eq(key, "duration") {
        7
    } else if str_eq(key, "pix_fmt") {
        8
    } else if str_eq(key, "bits_per_raw_sample") {
        9
    } else if str_eq(key, "color_range") {
        10
    } else if str_eq(key, "color_space") {
        11
    } else if str_eq(key, "color_transfer") {
        12
    } else if str_eq(key, "color_primaries") {
        13
    } else if str_eq(key, "chroma_location") {
        14
    } else if str_eq(key, "TAG:encoder") {
        15
    } else if str_eq(key, "avg_frame_rate") {
        16
    } else if str_eq(key, "r_frame_rate") {
        17
    } else if str_eq(key, "bit_rate") {
        18
    } else {
        19
    }
}

/// What one report line says: the key and value around its first `=`,
/// both trimmed, unless the value is empty or `N/A`.
pub open spec fn entry(line: Seq<char>) -> Option<(Seq<char>, Seq<char>)> {
    let k = first_of(line, '=');
    if k < line.len() {
        let value = trim(line.subrange(k as int + 1, line.len() as int));
        if value.len() == 0 || eq_ignore_case(value, "N/A"@) {
            None
        } else {
            Some((trim(line.subrange(0, k as int)), value))
        }
    } else {
        None
    }
}

/// The last value given for a key of slot `slot`.
pub open spec fn last_value(ls: Seq<Seq<char>>, slot: int) -> Option<Seq<char>>
    decreases ls.len(),
{
    if ls.len() == 0 {
        None
    } else {
        match entry(ls.last()) {
            Some(e) => if key_slot(e.0) == slot {
                Some(e.1)
            } else {
                last_value(ls.drop_last(), slot)
            },
            None => last_value(ls.drop_last(), slot),
        }
    }
}

/// Every value given for a key of slot `slot`, in order.
pub open spec fn values_of(ls: Seq<Seq<char>>, slot: int) -> Seq<Seq<char>>
    decreases ls.len(),
{
    if ls.len() == 0 {
        Seq::empty()
    } else {
        match entry(ls.last()) {
            Some(e) => if key_slot(e.0) == slot {
                values_of(ls.drop_last(), slot).push(e.1)
            } else {
                values_of(ls.drop_last(), slot)
            },
            None => values_of(ls.drop_last(), slot),
        }
    }
}

/// A value read as an unsigned integer no larger than `limit`.
pub open spec fn number_upto(v: Seq<char>, limit: nat) -> Option<nat> {
    match unsigned_text(v) {
        Some(n) => if n <= limit {
            Some(n)
        } else {
            None
        },
        None => None,
    }
}

/// The first value given for a key of slot `slot` that reads as a 64-bit
/// number.
pub open spec fn first_number(ls: Seq<Seq<char>>, slot: int) -> Option<nat>
    decreases ls.len(),
{
    if ls.len() == 0 {
        None
    } else {
        match first_number(ls.drop_last(), slot) {
            Some(n) => Some(n),
            None => match entry(ls.last()) {
                Some(e) => if key_slot(e.0) == slot {
                    number_upto(e.1, u64::MAX as nat)
                } else {
                    None
                },
                None => None,
            },
        }
    }
}

/// What the report says about the stream, each field read the way its
/// kind needs.
#[derive(Debug, Clone)]
pub struct VideoFields {
    pub codec_name: String,
    pub profile: Option<String>,
    pub width: u32,
    pub height: u32,
    pub sample_aspect_ratio: Option<String>,
    pub display_aspect_ratio: Option<String>,
    pub field_order: Option<String>,
    /// Every `avg_frame_rate` value, in order.
    pub avg_frame_rates: Vec<String>,
    /// Every `r_frame_rate` value, in order.
    pub r_frame_rates: Vec<String>,
    /// The last `duration` value.
    pub duration: Option<String>,
    pub bit_rate: Option<u64>,
    pub pix_fmt: Option<String>,
    pub bits_per_raw_sample: Option<u8>,
    pub color_range: Option<String>,
    pub color_space: Option<String>,
    pub color_transfer: Option<String>,
    pub color_primaries: Option<String>,
    pub chroma_location: Option<String>,
    pub encoder_tag: Option<String>,
}

pub open spec fn then_known_color(v: Option<Seq<char>>) -> Option<Seq<char>> {
    match v {
        Some(t) => known_color(t),
        None => None,
    }
}

pub open spec fn then_known_ratio(v: Option<Seq<char>>) -> Option<Seq<char>> {
    match v {
        Some(t) => known_ratio(t),
        None => None,
    }
}

/// A numeric field: its last value read as a number no larger than
/// `limit`, or zero / absent.
pub open spec fn then_number(v: Option<Seq<char>>, limit: nat) -> Option<nat> {
    match v {
        Some(t) => number_upto(t, limit),
        None => None,
    }
}

/// Whether `f` holds what the report lines `ls` say: the last value of
/// each field (colour and aspect fields only when known, numbers only when
/// they read as numbers), every frame rate, and the first readable bit
/// rate.
pub open spec fn fields_match(f: VideoFields, ls: Seq<Seq<char>>) -> bool {
    &&& last_value(ls, 0) == Some(f.codec_name@)
    &&& opt_chars(f.profile) == last_value(ls, 1)
    &&& f.width == (match then_number(last_value(ls, 2), u32::MAX as nat) {
        Some(n) => n,
        None => 0,
    })
    &&& f.height == (match then_number(last_value(ls, 3), u32::MAX as nat) {
        Some(n) => n,
        None => 0,
    })
    &&& opt_chars(f.sample_aspect_ratio) == then_known_ratio(last_value(ls, 4))
    &&& opt_chars(f.display_aspect_ratio) == then_known_ratio(last_value(ls, 5))
    &&& opt_chars(f.field_order) == then_known_color(last_value(ls, 6))
    &&& views(f.avg_frame_rates@) == values_of(ls, 16)
    &&& views(f.r_frame_rates@) == values_of(ls, 17)
    &&& opt_chars(f.duration) == last_value(ls, 7)
    &&& (match f.bit_rate {
        Some(b) => first_number(ls, 18) == Some(b as nat),
        None => first_number(ls, 18) is None,
    })
    &&& opt_chars(f.pix_fmt) == last_value(ls, 8)
    &&& (match f.bits_per_raw_sample {
        Some(b) => then_number(last_value(ls, 9), 255) == Some(b as nat),
        None => then_number(last_value(ls, 9), 255) is None,
    })
    &&& opt_chars(f.color_range) == then_known_color(last_value(ls, 10))
    &&& opt_chars(f.color_space) == then_known_color(last_value(ls, 11))
    &&& opt_chars(f.color_transfer) == then_known_color(last_value(ls, 12))
    &&& opt_chars(f.color_primaries) == then_known_color(last_value(ls, 13))
    &&& opt_chars(f.chroma_location) == then_known_color(last_value(ls, 14))
    &&& opt_chars(f.encoder_tag) == last_value(ls, 15)
}

fn line_entry(line: &str) -> (r: Option<(String, String)>)
    ensures
        match entry(line@) {
            Some(e) => r matches Some(p) && p.0@ == e.0 && p.1@ == e.1,
            None => r is None,
        },
{
    let v = chars_of(line);
    let k = position_of(&v, '=');
    if k >= v.len() {
        return None;
    }
    let raw_value = collect_range(&v, k + 1, v.len());
    let value = trimmed(raw_value.as_str());
    if value.as_str().unicode_len() == 0 || eq_ignore_case_str(value.as_str(), "N/A") {
        return None;
    }
    let raw_key = collect_range(&v, 0, k);
    let key = trimmed(raw_key.as_str());
    Some((key, value))
}

fn take_last(kept: &mut Vec<Option<String>>) -> (r: Option<String>)
    requires
        old(kept).len() > 0,
    ensures
        final(kept)@ == old(kept)@.drop_last(),
        r == old(kept)@.last(),
{
    match kept.pop() {
        Some(v) => v,
        None => None,
    }
}

fn number_of(v: Option<String>, limit: u64) -> (r: Option<u64>)
    ensures
        match then_number(opt_chars(v), limit as nat) {
            Some(n) => r == Some(n as u64),
            None => r is None,
        },
{
    match v {
        Some(t) => parse_unsigned_upto(t.as_str(), limit),
        None => None,
    }
}

fn known_color_of(v: Option<String>) -> (r: Option<String>)
    ensures
        opt_chars(r) == then_known_color(opt_chars(v)),
{
    match v {
        Some(t) => known_color_value(t.as_str()),
        None => None,
    }
}

fn known_ratio_of(v: Option<String>) -> (r: Option<String>)
    ensures
        opt_chars(r) == then_known_ratio(opt_chars(v)),
{
    match v {
        Some(t) => known_ratio_value(t.as_str()),
        None => None,
    }
}

/// Reads ffprobe's report of a video stream; `None` when it names no codec.
pub fn parse_video_fields(text: &str) -> (r: Option<VideoFields>)
    ensures
        last_value(lines(text@), 0) is None ==> r is None,
        last_value(lines(text@), 0) is Some ==> (r matches Some(f) && fields_match(
            f,
            lines(text@),
        )),
{
    let all = split_lines(text);
    let ghost ls = lines(text@);
    let mut kept: Vec<Option<String>> = Vec::new();
    let mut n: usize = 0;
    while n < 16
        invariant
            n <= 16,
            kept@.len() == n,
            forall|j: int| 0 <= j < n ==> kept@[j] is None,
        decreases 16 - n,
    {
        kept.push(None);
        n += 1;
    }
    let mut avg: Vec<String> = Vec::new();
    let mut nominal: Vec<String> = Vec::new();
    let mut bit_rate: Option<u64> = None;
    let mut i: usize = 0;
    assert(ls.take(0) =~= Seq::<Seq<char>>::empty());
    while i < all.len()
        invariant
            i <= all.len(),
            all@.len() == ls.len(),
            forall|k: int| 0 <= k < all@.len() ==> (#[trigger] all@[k])@ == ls[k],
            kept@.len() == 16,
            forall|q: int| 0 <= q < 16 ==> opt_chars(#[trigger] kept@[q]) == last_value(ls.take(i as int), q),
            views(avg@) == values_of(ls.take(i as int), 16),
            views(nominal@) == values_of(ls.take(i as int), 17),
            match bit_rate {
                Some(b) => first_number(ls.take(i as int), 18) == Some(b as nat),
                None => first_number(ls.take(i as int), 18) is None,
            },
        decreases all.len() - i,
    {
        let ghost before = ls.take(i as int);
        let ghost after = ls.take(i as int + 1);
        assert(after.drop_last() =~= before);
        assert(after.last() == ls[i as int]);
        let ghost old_kept = kept@;
        match line_entry(all[i].as_str()) {
            None => {},
            Some((key, value)) => {
                let slot = key_slot_of(key.as_str());
                if slot < 16 {
                    kept.set(slot, Some(value));
                } else if slot == 16 {
                    avg.push(value);
                } else if slot == 17 {
                    nominal.push(value);
                } else if slot == 18 {
                    if bit_rate.is_none() {
                        bit_rate = parse_unsigned_upto(value.as_str(), u64::MAX);
                    }
                }
            },
        }
        assert forall|q: int| 0 <= q < 16 implies opt_chars(#[trigger] kept@[q]) == last_value(after, q) by {
            if kept@[q] != old_kept[q] {
            }
        }
        assert(views(avg@) =~= values_of(after, 16));
        assert(views(nominal@) =~= values_of(after, 17));
        i += 1;
    }
    assert(ls.take(all.len() as int) =~= ls);
    let ghost fin = kept@;
    let encoder_tag = take_last(&mut kept);
    let chroma_location = take_last(&mut kept);
    let color_primaries = take_last(&mut kept);
    let color_transfer = take_last(&mut kept);
    let color_space = take_last(&mut kept);
    let color_range = take_last(&mut kept);
    let bits = take_last(&mut kept);
    let pix_fmt = take_last(&mut kept);
    let duration = take_last(&mut kept);
    let field_order = take_last(&mut kept);
    let display_aspect_ratio = take_last(&mut kept);
    let sample_aspect_ratio = take_last(&mut kept);
    let height = take_last(&mut kept);
    let width = take_last(&mut kept);
    let profile = take_last(&mut kept);
    let codec_name = take_last(&mut kept);
    assert(opt_chars(fin[0]) == last_value(ls, 0));
    assert(opt_chars(fin[1]) == last_value(ls, 1));
    assert(opt_chars(fin[2]) == last_value(ls, 2));
    assert(opt_chars(fin[3]) == last_value(ls, 3));
    assert(opt_chars(fin[4]) == last_value(ls, 4));
    assert(opt_chars(fin[5]) == last_value(ls, 5));
    assert(opt_chars(fin[6]) == last_value(ls, 6));
    assert(opt_chars(fin[7]) == last_value(ls, 7));
    assert(opt_chars(fin[8]) == last_value(ls, 8));
    assert(opt_chars(fin[9]) == last_value(ls, 9));
    assert(opt_chars(fin[10]) == last_value(ls, 10));
    assert(opt_chars(fin[11]) == last_value(ls, 11));
    assert(opt_chars(fin[12]) == last_value(ls, 12));
    assert(opt_chars(fin[13]) == last_value(ls, 13));
    assert(opt_chars(fin[14]) == last_value(ls, 14));
    assert(opt_chars(fin[15]) == last_value(ls, 15));
    let codec_name = match codec_name {
        Some(c) => c,
        None => return None,
    };
    let width = match number_of(width, 0xFFFF_FFFF) {
        Some(w) => w as u32,
        None => 0,
    };
    let height = match number_of(height, 0xFFFF_FFFF) {
        Some(h) => h as u32,
        None => 0,
    };
    let bits_per_raw_sample = match number_of(bits, 255) {
        Some(b) => Some(b as u8),
        None => None,
    };
    let fields = VideoFields {
        codec_name,
        profile,
        width,
        height,
        sample_aspect_ratio: known_ratio_of(sample_aspect_ratio),
        display_aspect_ratio: known_ratio_of(display_aspect_ratio),
        field_order: known_color_of(field_order),
        avg_frame_rates: avg,
        r_frame_rates: nominal,
        duration,
        bit_rate,
        pix_fmt,
        bits_per_raw_sample,
        color_range: known_color_of(color_range),
        color_space: known_color_of(color_space),
        color_transfer: known_color_of(color_transfer),
        color_primaries: known_color_of(color_primaries),
        chroma_location: known_color_of(chroma_location),
        encoder_tag,
    };
    Some(fields)
}

} // verus!
