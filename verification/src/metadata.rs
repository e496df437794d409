//! Colour metadata, pixel formats and source codec families.
use vstd::prelude::*;
use crate::codec::{chroma_location_spec, metadata_filter, range_is_full};
use crate::options::{key_of, TargetCodec};
use crate::probe::opt_chars;
use crate::text::{
    chars_of, collect_all, collect_range, contains, contains_str, copy_str, eq_ignore_case,
    eq_ignore_case_str, join2, lower, lowered, option_key, owned_all, replace_all, replace_str,
    starts_with, starts_with_str, str_eq, views,
};

verus! {

/// The key colour names are matched on: trimmed, lowercased, with `_`
/// written as `-`.
pub open spec fn metadata_key_spec(value: Seq<char>) -> Seq<char> {
    replace_all(key_of(value), seq!['_'], seq!['-'])
}

/// Normalizes a colour name for matching.
pub fn metadata_key(value: &str) -> (r: String)
    ensures
        r@ == metadata_key_spec(value@),
{
    let key = option_key(value);
    let v = chars_of(key.as_str());
    let from = vec!['_'];
    let to = vec!['-'];
    assert(from@ =~= seq!['_']);
    assert(to@ =~= seq!['-']);
    let replaced = replace_str(&v, &from, &to);
    collect_all(&replaced)
}

/// The AV1 `color_primaries` code for a colour space name.
pub open spec fn av1_primaries(value: Seq<char>) -> Option<Seq<char>> {
    let k = metadata_key_spec(value);
    if k == "bt709"@ {
        Some("1"@)
    } else if k == "bt470m"@ {
        Some("4"@)
    } else if k == "bt470bg"@ {
        Some("5"@)
    } else if k == "smpte170m"@ {
        Some("6"@)
    } else if k == "smpte240m"@ {
        Some("7"@)
    } else if k == "film"@ {
        Some("8"@)
    } else if k == "bt2020"@ {
        Some("9"@)
    } else if k == "smpte428"@ || k == "smpte428-1"@ {
        Some("10"@)
    } else if k == "smpte431"@ {
        Some("11"@)
    } else if k == "smpte432"@ {
        Some("12"@)
    } else if k == "ebu3213"@ || k == "jedec-p22"@ {
        Some("22"@)
    } else {
        None
    }
}

pub open spec fn opt_static(o: Option<&'static str>) -> Option<Seq<char>> {
    match o {
        Some(s) => Some(s@),
        None => None,
    }
}

/// Each colour primaries name, as normalized, has its ITU-T H.273 code.
pub proof fn primaries_codes(value: Seq<char>)
    ensures
        metadata_key_spec(value) == "bt709"@ ==> av1_primaries(value) == Some::<Seq<char>>("1"@),
        metadata_key_spec(value) == "bt470m"@ ==> av1_primaries(value) == Some::<Seq<char>>("4"@),
        metadata_key_spec(value) == "bt470bg"@ ==> av1_primaries(value) == Some::<Seq<char>>("5"@),
        metadata_key_spec(value) == "smpte170m"@ ==> av1_primaries(value) == Some::<Seq<char>>("6"@),
        metadata_key_spec(value) == "smpte240m"@ ==> av1_primaries(value) == Some::<Seq<char>>("7"@),
        metadata_key_spec(value) == "film"@ ==> av1_primaries(value) == Some::<Seq<char>>("8"@),
        metadata_key_spec(value) == "bt2020"@ ==> av1_primaries(value) == Some::<Seq<char>>("9"@),
        metadata_key_spec(value) == "smpte428"@ ==> av1_primaries(value) == Some::<Seq<char>>("10"@),
        metadata_key_spec(value) == "smpte428-1"@ ==> av1_primaries(value) == Some::<Seq<char>>("10"@),
        metadata_key_spec(value) == "smpte431"@ ==> av1_primaries(value) == Some::<Seq<char>>("11"@),
        metadata_key_spec(value) == "smpte432"@ ==> av1_primaries(value) == Some::<Seq<char>>("12"@),
        metadata_key_spec(value) == "ebu3213"@ ==> av1_primaries(value) == Some::<Seq<char>>("22"@),
        metadata_key_spec(value) == "jedec-p22"@ ==> av1_primaries(value) == Some::<Seq<char>>("22"@),
{
    reveal_strlit("bt2020");
    assert("bt2020"@.len() == 6);
    reveal_strlit("bt470bg");
    assert("bt470bg"@.len() == 7);
    reveal_strlit("bt470m");
    assert("bt470m"@.len() == 6);
    reveal_strlit("bt709");
    assert("bt709"@.len() == 5);
    reveal_strlit("ebu3213");
    assert("ebu3213"@.len() == 7);
    reveal_strlit("film");
    assert("film"@.len() == 4);
    reveal_strlit("jedec-p22");
    assert("jedec-p22"@.len() == 9);
    reveal_strlit("smpte170m");
    assert("smpte170m"@.len() == 9);
    reveal_strlit("smpte240m");
    assert("smpte240m"@.len() == 9);
    reveal_strlit("smpte428");
    assert("smpte428"@.len() == 8);
    reveal_strlit("smpte428-1");
    assert("smpte428-1"@.len() == 10);
    reveal_strlit("smpte431");
    assert("smpte431"@.len() == 8);
    reveal_strlit("smpte432");
    assert("smpte432"@.len() == 8);
    assert("bt470m"@[2] != "bt2020"@[2]);
    assert("bt470bg"@[0] != "ebu3213"@[0]);
    assert("smpte170m"@[5] != "smpte240m"@[5]);
    assert("smpte170m"@[0] != "jedec-p22"@[0]);
    assert("smpte240m"@[0] != "jedec-p22"@[0]);
    assert("smpte428"@[6] != "smpte431"@[6]);
    assert("smpte428"@[6] != "smpte432"@[6]);
    assert("smpte431"@[7] != "smpte432"@[7]);
}

/// Each transfer curve name, as normalized, has its ITU-T H.273 code.
pub proof fn transfer_codes(value: Seq<char>)
    ensures
        metadata_key_spec(value) == "bt709"@ ==> av1_transfer(value) == Some::<Seq<char>>("1"@),
        metadata_key_spec(value) == "bt470m"@ ==> av1_transfer(value) == Some::<Seq<char>>("4"@),
        metadata_key_spec(value) == "gamma22"@ ==> av1_transfer(value) == Some::<Seq<char>>("4"@),
        metadata_key_spec(value) == "bt470bg"@ ==> av1_transfer(value) == Some::<Seq<char>>("5"@),
        metadata_key_spec(value) == "gamma28"@ ==> av1_transfer(value) == Some::<Seq<char>>("5"@),
        metadata_key_spec(value) == "smpte170m"@ ==> av1_transfer(value) == Some::<Seq<char>>("6"@),
        metadata_key_spec(value) == "smpte240m"@ ==> av1_transfer(value) == Some::<Seq<char>>("7"@),
        metadata_key_spec(value) == "linear"@ ==> av1_transfer(value) == Some::<Seq<char>>("8"@),
        metadata_key_spec(value) == "log"@ ==> av1_transfer(value) == Some::<Seq<char>>("9"@),
        metadata_key_spec(value) == "log100"@ ==> av1_transfer(value) == Some::<Seq<char>>("9"@),
        metadata_key_spec(value) == "log-sqrt"@ ==> av1_transfer(value) == Some::<Seq<char>>("10"@),
        metadata_key_spec(value) == "log316"@ ==> av1_transfer(value) == Some::<Seq<char>>("10"@),
        metadata_key_spec(value) == "iec61966-2-4"@ ==> av1_transfer(value) == Some::<Seq<char>>("11"@),
        metadata_key_spec(value) == "bt1361e"@ ==> av1_transfer(value) == Some::<Seq<char>>("12"@),
        metadata_key_spec(value) == "bt1361"@ ==> av1_transfer(value) == Some::<Seq<char>>("12"@),
        metadata_key_spec(value) == "iec61966-2-1"@ ==> av1_transfer(value) == Some::<Seq<char>>("13"@),
        metadata_key_spec(value) == "srgb"@ ==> av1_transfer(value) == Some::<Seq<char>>("13"@),
        metadata_key_spec(value) == "bt2020-10"@ ==> av1_transfer(value) == Some::<Seq<char>>("14"@),
        metadata_key_spec(value) == "bt2020-12"@ ==> av1_transfer(value) == Some::<Seq<char>>("15"@),
        metadata_key_spec(value) == "smpte2084"@ ==> av1_transfer(value) == Some::<Seq<char>>("16"@),
        metadata_key_spec(value) == "smpte428"@ ==> av1_transfer(value) == Some::<Seq<char>>("17"@),
        metadata_key_spec(value) == "smpte428-1"@ ==> av1_transfer(value) == Some::<Seq<char>>("17"@),
        metadata_key_spec(value) == "arib-std-b67"@ ==> av1_transfer(value) == Some::<Seq<char>>("18"@),
        metadata_key_spec(value) == "hlg"@ ==> av1_transfer(value) == Some::<Seq<char>>("18"@),
{
    reveal_strlit("arib-std-b67");
    assert("arib-std-b67"@.len() == 12);
    reveal_strlit("bt1361");
    assert("bt1361"@.len() == 6);
    reveal_strlit("bt1361e");
    assert("bt1361e"@.len() == 7);
    reveal_strlit("bt2020-10");
    assert("bt2020-10"@.len() == 9);
    reveal_strlit("bt2020-12");
    assert("bt2020-12"@.len() == 9);
    reveal_strlit("bt470bg");
    assert("bt470bg"@.len() == 7);
    reveal_strlit("bt470m");
    assert("bt470m"@.len() == 6);
    reveal_strlit("bt709");
    assert("bt709"@.len() == 5);
    reveal_strlit("gamma22");
    assert("gamma22"@.len() == 7);
    reveal_strlit("gamma28");
    assert("gamma28"@.len() == 7);
    reveal_strlit("hlg");
    assert("hlg"@.len() == 3);
    reveal_strlit("iec61966-2-1");
    assert("iec61966-2-1"@.len() == 12);
    reveal_strlit("iec61966-2-4");
    assert("iec61966-2-4"@.len() == 12);
    reveal_strlit("linear");
    assert("linear"@.len() == 6);
    reveal_strlit("log");
    assert("log"@.len() == 3);
    reveal_strlit("log-sqrt");
    assert("log-sqrt"@.len() == 8);
    reveal_strlit("log100");
    assert("log100"@.len() == 6);
    reveal_strlit("log316");
    assert("log316"@.len() == 6);
    reveal_strlit("smpte170m");
    assert("smpte170m"@.len() == 9);
    reveal_strlit("smpte2084");
    assert("smpte2084"@.len() == 9);
    reveal_strlit("smpte240m");
    assert("smpte240m"@.len() == 9);
    reveal_strlit("smpte428");
    assert("smpte428"@.len() == 8);
    reveal_strlit("smpte428-1");
    assert("smpte428-1"@.len() == 10);
    reveal_strlit("srgb");
    assert("srgb"@.len() == 4);
    assert("bt470m"@[0] != "linear"@[0]);
    assert("bt470m"@[0] != "log100"@[0]);
    assert("bt470m"@[0] != "log316"@[0]);
    assert("bt470m"@[2] != "bt1361"@[2]);
    assert("gamma22"@[0] != "bt470bg"@[0]);
    assert("gamma22"@[6] != "gamma28"@[6]);
    assert("gamma22"@[0] != "bt1361e"@[0]);
    assert("bt470bg"@[0] != "gamma28"@[0]);
    assert("bt470bg"@[2] != "bt1361e"@[2]);
    assert("gamma28"@[0] != "bt1361e"@[0]);
    assert("smpte170m"@[5] != "smpte240m"@[5]);
    assert("smpte170m"@[0] != "bt2020-10"@[0]);
    assert("smpte170m"@[0] != "bt2020-12"@[0]);
    assert("smpte170m"@[5] != "smpte2084"@[5]);
    assert("smpte240m"@[0] != "bt2020-10"@[0]);
    assert("smpte240m"@[0] != "bt2020-12"@[0]);
    assert("smpte240m"@[6] != "smpte2084"@[6]);
    assert("linear"@[1] != "log100"@[1]);
    assert("linear"@[1] != "log316"@[1]);
    assert("linear"@[0] != "bt1361"@[0]);
    assert("log"@[0] != "hlg"@[0]);
    assert("log100"@[3] != "log316"@[3]);
    assert("log100"@[0] != "bt1361"@[0]);
    assert("log-sqrt"@[0] != "smpte428"@[0]);
    assert("log316"@[0] != "bt1361"@[0]);
    assert("iec61966-2-4"@[11] != "iec61966-2-1"@[11]);
    assert("iec61966-2-4"@[0] != "arib-std-b67"@[0]);
    assert("iec61966-2-1"@[0] != "arib-std-b67"@[0]);
    assert("bt2020-10"@[8] != "bt2020-12"@[8]);
    assert("bt2020-10"@[0] != "smpte2084"@[0]);
    assert("bt2020-12"@[0] != "smpte2084"@[0]);
}

/// Each colour matrix name, as normalized, has its ITU-T H.273 code.
pub proof fn matrix_codes(value: Seq<char>)
    ensures
        metadata_key_spec(value) == "gbr"@ ==> av1_matrix(value) == Some::<Seq<char>>("0"@),
        metadata_key_spec(value) == "rgb"@ ==> av1_matrix(value) == Some::<Seq<char>>("0"@),
        metadata_key_spec(value) == "bt709"@ ==> av1_matrix(value) == Some::<Seq<char>>("1"@),
        metadata_key_spec(value) == "fcc"@ ==> av1_matrix(value) == Some::<Seq<char>>("4"@),
        metadata_key_spec(value) == "bt470bg"@ ==> av1_matrix(value) == Some::<Seq<char>>("5"@),
        metadata_key_spec(value) == "smpte170m"@ ==> av1_matrix(value) == Some::<Seq<char>>("6"@),
        metadata_key_spec(value) == "smpte240m"@ ==> av1_matrix(value) == Some::<Seq<char>>("7"@),
        metadata_key_spec(value) == "ycgco"@ ==> av1_matrix(value) == Some::<Seq<char>>("8"@),
        metadata_key_spec(value) == "bt2020nc"@ ==> av1_matrix(value) == Some::<Seq<char>>("9"@),
        metadata_key_spec(value) == "bt2020-nc"@ ==> av1_matrix(value) == Some::<Seq<char>>("9"@),
        metadata_key_spec(value) == "bt2020ncl"@ ==> av1_matrix(value) == Some::<Seq<char>>("9"@),
        metadata_key_spec(value) == "bt2020-ncl"@ ==> av1_matrix(value) == Some::<Seq<char>>("9"@),
        metadata_key_spec(value) == "bt2020c"@ ==> av1_matrix(value) == Some::<Seq<char>>("10"@),
        metadata_key_spec(value) == "bt2020-c"@ ==> av1_matrix(value) == Some::<Seq<char>>("10"@),
        metadata_key_spec(value) == "bt2020cl"@ ==> av1_matrix(value) == Some::<Seq<char>>("10"@),
        metadata_key_spec(value) == "bt2020-cl"@ ==> av1_matrix(value) == Some::<Seq<char>>("10"@),
        metadata_key_spec(value) == "smpte2085"@ ==> av1_matrix(value) == Some::<Seq<char>>("11"@),
        metadata_key_spec(value) == "chroma-derived-nc"@ ==> av1_matrix(value) == Some::<Seq<char>>("12"@),
        metadata_key_spec(value) == "chromaderivednc"@ ==> av1_matrix(value) == Some::<Seq<char>>("12"@),
        metadata_key_spec(value) == "chroma-derived-c"@ ==> av1_matrix(value) == Some::<Seq<char>>("13"@),
        metadata_key_spec(value) == "chromaderivedc"@ ==> av1_matrix(value) == Some::<Seq<char>>("13"@),
        metadata_key_spec(value) == "ictcp"@ ==> av1_matrix(value) == Some::<Seq<char>>("14"@),
{
    reveal_strlit("bt2020-c");
    assert("bt2020-c"@.len() == 8);
    reveal_strlit("bt2020-cl");
    assert("bt2020-cl"@.len() == 9);
    reveal_strlit("bt2020-nc");
    assert("bt2020-nc"@.len() == 9);
    reveal_strlit("bt2020-ncl");
    assert("bt2020-ncl"@.len() == 10);
    reveal_strlit("bt2020c");
    assert("bt2020c"@.len() == 7);
    reveal_strlit("bt2020cl");
    assert("bt2020cl"@.len() == 8);
    reveal_strlit("bt2020nc");
    assert("bt2020nc"@.len() == 8);
    reveal_strlit("bt2020ncl");
    assert("bt2020ncl"@.len() == 9);
    reveal_strlit("bt470bg");
    assert("bt470bg"@.len() == 7);
    reveal_strlit("bt709");
    assert("bt709"@.len() == 5);
    reveal_strlit("chroma-derived-c");
    assert("chroma-derived-c"@.len() == 16);
    reveal_strlit("chroma-derived-nc");
    assert("chroma-derived-nc"@.len() == 17);
    reveal_strlit("chromaderivedc");
    assert("chromaderivedc"@.len() == 14);
    reveal_strlit("chromaderivednc");
    assert("chromaderivednc"@.len() == 15);
    reveal_strlit("fcc");
    assert("fcc"@.len() == 3);
    reveal_strlit("gbr");
    assert("gbr"@.len() == 3);
    reveal_strlit("ictcp");
    assert("ictcp"@.len() == 5);
    reveal_strlit("rgb");
    assert("rgb"@.len() == 3);
    reveal_strlit("smpte170m");
    assert("smpte170m"@.len() == 9);
    reveal_strlit("smpte2085");
    assert("smpte2085"@.len() == 9);
    reveal_strlit("smpte240m");
    assert("smpte240m"@.len() == 9);
    reveal_strlit("ycgco");
    assert("ycgco"@.len() == 5);
    assert("gbr"@[0] != "rgb"@[0]);
    assert("gbr"@[0] != "fcc"@[0]);
    assert("rgb"@[0] != "fcc"@[0]);
    assert("bt709"@[0] != "ycgco"@[0]);
    assert("bt709"@[0] != "ictcp"@[0]);
    assert("bt470bg"@[2] != "bt2020c"@[2]);
    assert("smpte170m"@[5] != "smpte240m"@[5]);
    assert("smpte170m"@[0] != "bt2020-nc"@[0]);
    assert("smpte170m"@[0] != "bt2020ncl"@[0]);
    assert("smpte170m"@[0] != "bt2020-cl"@[0]);
    assert("smpte170m"@[5] != "smpte2085"@[5]);
    assert("smpte240m"@[0] != "bt2020-nc"@[0]);
    assert("smpte240m"@[0] != "bt2020ncl"@[0]);
    assert("smpte240m"@[0] != "bt2020-cl"@[0]);
    assert("smpte240m"@[6] != "smpte2085"@[6]);
    assert("ycgco"@[0] != "ictcp"@[0]);
    assert("bt2020nc"@[6] != "bt2020-c"@[6]);
    assert("bt2020nc"@[6] != "bt2020cl"@[6]);
    assert("bt2020-nc"@[6] != "bt2020ncl"@[6]);
    assert("bt2020-nc"@[7] != "bt2020-cl"@[7]);
    assert("bt2020-nc"@[0] != "smpte2085"@[0]);
    assert("bt2020ncl"@[6] != "bt2020-cl"@[6]);
    assert("bt2020ncl"@[0] != "smpte2085"@[0]);
    assert("bt2020-c"@[6] != "bt2020cl"@[6]);
    assert("bt2020-cl"@[0] != "smpte2085"@[0]);
}
/// Maps a colour primaries name onto its AV1 code.
pub fn av1_color_primaries_value(value: &str) -> (r: Option<&'static str>)
    ensures
        opt_static(r) == av1_primaries(value@),
{
    let key = metadata_key(value);
    let k = key.as_str();
    if str_eq(k, "bt709") {
        Some("1")
    } else if str_eq(k, "bt470m") {
        Some("4")
    } else if str_eq(k, "bt470bg") {
        Some("5")
    } else if str_eq(k, "smpte170m") {
        Some("6")
    } else if str_eq(k, "smpte240m") {
        Some("7")
    } else if str_eq(k, "film") {
        Some("8")
    } else if str_eq(k, "bt2020") {
        Some("9")
    } else if str_eq(k, "smpte428") || str_eq(k, "smpte428-1") {
        Some("10")
    } else if str_eq(k, "smpte431") {
        Some("11")
    } else if str_eq(k, "smpte432") {
        Some("12")
    } else if str_eq(k, "ebu3213") || str_eq(k, "jedec-p22") {
        Some("22")
    } else {
        None
    }
}

/// The AV1 `transfer_characteristics` code for a transfer curve name.
pub open spec fn av1_transfer(value: Seq<char>) -> Option<Seq<char>> {
    let k = metadata_key_spec(value);
    if k == "bt709"@ {
        Some("1"@)
    } else if k == "bt470m"@ || k == "gamma22"@ {
        Some("4"@)
    } else if k == "bt470bg"@ || k == "gamma28"@ {
        Some("5"@)
    } else if k == "smpte170m"@ {
        Some("6"@)
    } else if k == "smpte240m"@ {
        Some("7"@)
    } else if k == "linear"@ {
        Some("8"@)
    } else if k == "log"@ || k == "log100"@ {
        Some("9"@)
    } else if k == "log-sqrt"@ || k == "log316"@ {
        Some("10"@)
    } else if k == "iec61966-2-4"@ {
        Some("11"@)
    } else if k == "bt1361e"@ || k == "bt1361"@ {
        Some("12"@)
    } else if k == "iec61966-2-1"@ || k == "srgb"@ {
        Some("13"@)
    } else if k == "bt2020-10"@ {
        Some("14"@)
    } else if k == "bt2020-12"@ {
        Some("15"@)
    } else if k == "smpte2084"@ {
        Some("16"@)
    } else if k == "smpte428"@ || k == "smpte428-1"@ {
        Some("17"@)
    } else if k == "arib-std-b67"@ || k == "hlg"@ {
        Some("18"@)
    } else {
        None
    }
}

/// Maps a transfer curve name onto its AV1 code.
pub fn av1_transfer_characteristics_value(value: &str) -> (r: Option<&'static str>)
    ensures
        opt_static(r) == av1_transfer(value@),
{
    let key = metadata_key(value);
    let k = key.as_str();
    if str_eq(k, "bt709") {
        Some("1")
    } else if str_eq(k, "bt470m") || str_eq(k, "gamma22") {
        Some("4")
    } else if str_eq(k, "bt470bg") || str_eq(k, "gamma28") {
        Some("5")
    } else if str_eq(k, "smpte170m") {
        Some("6")
    } else if str_eq(k, "smpte240m") {
        Some("7")
    } else if str_eq(k, "linear") {
        Some("8")
    } else if str_eq(k, "log") || str_eq(k, "log100") {
        Some("9")
    } else if str_eq(k, "log-sqrt") || str_eq(k, "log316") {
        Some("10")
    } else if str_eq(k, "iec61966-2-4") {
        Some("11")
    } else if str_eq(k, "bt1361e") || str_eq(k, "bt1361") {
        Some("12")
    } else if str_eq(k, "iec61966-2-1") || str_eq(k, "srgb") {
        Some("13")
    } else if str_eq(k, "bt2020-10") {
        Some("14")
    } else if str_eq(k, "bt2020-12") {
        Some("15")
    } else if str_eq(k, "smpte2084") {
        Some("16")
    } else if str_eq(k, "smpte428") || str_eq(k, "smpte428-1") {
        Some("17")
    } else if str_eq(k, "arib-std-b67") || str_eq(k, "hlg") {
        Some("18")
    } else {
        None
    }
}

/// The AV1 `matrix_coefficients` code for a colour matrix name.
pub open spec fn av1_matrix(value: Seq<char>) -> Option<Seq<char>> {
    let k = metadata_key_spec(value);
    if k == "gbr"@ || k == "rgb"@ {
        Some("0"@)
    } else if k == "bt709"@ {
        Some("1"@)
    } else if k == "fcc"@ {
        Some("4"@)
    } else if k == "bt470bg"@ {
        Some("5"@)
    } else if k == "smpte170m"@ {
        Some("6"@)
    } else if k == "smpte240m"@ {
        Some("7"@)
    } else if k == "ycgco"@ {
        Some("8"@)
    } else if k == "bt2020nc"@ || k == "bt2020-nc"@ || k == "bt2020ncl"@ || k == "bt2020-ncl"@ {
        Some("9"@)
    } else if k == "bt2020c"@ || k == "bt2020-c"@ || k == "bt2020cl"@ || k == "bt2020-cl"@ {
        Some("10"@)
    } else if k == "smpte2085"@ {
        Some("11"@)
    } else if k == "chroma-derived-nc"@ || k == "chromaderivednc"@ {
        Some("12"@)
    } else if k == "chroma-derived-c"@ || k == "chromaderivedc"@ {
        Some("13"@)
    } else if k == "ictcp"@ {
        Some("14"@)
    } else {
        None
    }
}

/// Maps a colour matrix name onto its AV1 code.
pub fn av1_matrix_coefficients_value(value: &str) -> (r: Option<&'static str>)
    ensures
        opt_static(r) == av1_matrix(value@),
{
    let key = metadata_key(value);
    let k = key.as_str();
    if str_eq(k, "gbr") || str_eq(k, "rgb") {
        Some("0")
    } else if str_eq(k, "bt709") {
        Some("1")
    } else if str_eq(k, "fcc") {
        Some("4")
    } else if str_eq(k, "bt470bg") {
        Some("5")
    } else if str_eq(k, "smpte170m") {
        Some("6")
    } else if str_eq(k, "smpte240m") {
        Some("7")
    } else if str_eq(k, "ycgco") {
        Some("8")
    } else if str_eq(k, "bt2020nc") || str_eq(k, "bt2020-nc") || str_eq(k, "bt2020ncl") || str_eq(
        k,
        "bt2020-ncl",
    ) {
        Some("9")
    } else if str_eq(k, "bt2020c") || str_eq(k, "bt2020-c") || str_eq(k, "bt2020cl") || str_eq(
        k,
        "bt2020-cl",
    ) {
        Some("10")
    } else if str_eq(k, "smpte2085") {
        Some("11")
    } else if str_eq(k, "chroma-derived-nc") || str_eq(k, "chromaderivednc") {
        Some("12")
    } else if str_eq(k, "chroma-derived-c") || str_eq(k, "chromaderivedc") {
        Some("13")
    } else if str_eq(k, "ictcp") {
        Some("14")
    } else {
        None
    }
}

/// The pixel format a JPEG-range name stands for: `yuvjNNNp` becomes
/// `yuvNNNp`; every other name is kept.
pub open spec fn normalized_pix_fmt_spec(f: Seq<char>) -> Seq<char> {
    if f == "yuvj420p"@ {
        "yuv420p"@
    } else if f == "yuvj422p"@ {
        "yuv422p"@
    } else if f == "yuvj444p"@ {
        "yuv444p"@
    } else {
        f
    }
}

/// The JPEG-range formats become their ordinary counterparts, and no other
/// format name changes.
pub proof fn jpeg_range_formats_normalize(f: Seq<char>)
    ensures
        f == "yuvj420p"@ ==> normalized_pix_fmt_spec(f) == "yuv420p"@,
        f == "yuvj422p"@ ==> normalized_pix_fmt_spec(f) == "yuv422p"@,
        f == "yuvj444p"@ ==> normalized_pix_fmt_spec(f) == "yuv444p"@,
        f != "yuvj420p"@ && f != "yuvj422p"@ && f != "yuvj444p"@ ==> normalized_pix_fmt_spec(f) == f,
{
    reveal_strlit("yuvj420p");
    reveal_strlit("yuvj422p");
    reveal_strlit("yuvj444p");
    assert("yuvj420p"@[6] != "yuvj422p"@[6]);
    assert("yuvj420p"@[5] != "yuvj444p"@[5]);
    assert("yuvj422p"@[5] != "yuvj444p"@[5]);
}

/// The formats that carry alpha: every planar `yuva*` and `gbrap*` format,
/// and the packed rgba, bgra, argb, abgr, ya8, ya16le and ya16be.
pub proof fn alpha_formats(f: Seq<char>)
    ensures
        starts_with(f, "yuva"@) || starts_with(f, "gbrap"@) || f == "rgba"@ || f == "bgra"@ || f
            == "argb"@ || f == "abgr"@ || f == "ya8"@ || f == "ya16le"@ || f == "ya16be"@
            ==> has_alpha(f),
{
}

/// Normalizes a JPEG-range pixel format name.
pub fn normalized_pix_fmt(pix_fmt: &str) -> (r: String)
    ensures
        r@ == normalized_pix_fmt_spec(pix_fmt@),
{
    if str_eq(pix_fmt, "yuvj420p") {
        copy_str("yuv420p")
    } else if str_eq(pix_fmt, "yuvj422p") {
        copy_str("yuv422p")
    } else if str_eq(pix_fmt, "yuvj444p") {
        copy_str("yuv444p")
    } else {
        copy_str(pix_fmt)
    }
}

/// Whether a pixel format carries alpha, and so must not be adapted
/// automatically.
pub open spec fn has_alpha(f: Seq<char>) -> bool {
    starts_with(f, "yuva"@) || starts_with(f, "gbrap"@) || f == "rgba"@ || f == "bgra"@ || f
        == "argb"@ || f == "abgr"@ || f == "ya8"@ || f == "ya16le"@ || f == "ya16be"@
}

/// Detects alpha-bearing pixel formats.
pub fn pixel_format_has_alpha(pix_fmt: &str) -> (r: bool)
    ensures
        r == has_alpha(pix_fmt@),
{
    starts_with_str(pix_fmt, "yuva") || starts_with_str(pix_fmt, "gbrap") || str_eq(pix_fmt, "rgba")
        || str_eq(pix_fmt, "bgra") || str_eq(pix_fmt, "argb") || str_eq(pix_fmt, "abgr") || str_eq(
        pix_fmt,
        "ya8",
    ) || str_eq(pix_fmt, "ya16le") || str_eq(pix_fmt, "ya16be")
}

/// Position of the last `c` in `s`, if any.
pub open spec fn last_of(s: Seq<char>, c: char) -> Option<int>
    decreases s.len(),
{
    if s.len() == 0 {
        None
    } else if s.last() == c {
        Some(s.len() - 1)
    } else {
        last_of(s.drop_last(), c)
    }
}

/// Where the run of ASCII digits starting at `s[i]` ends.
pub open spec fn digit_run_end(s: Seq<char>, i: int) -> int
    decreases s.len() - i,
{
    if i < 0 || i >= s.len() || !crate::text::is_digit(s[i]) {
        i
    } else {
        digit_run_end(s, i + 1)
    }
}

/// The explicit bit depth of a planar pixel format: the digits right after
/// its last `p`, as in `yuv420p10le`; none for names like `yuv420p`.
pub open spec fn bit_depth(f: Seq<char>) -> Option<u8> {
    match last_of(f, 'p') {
        None => None,
        Some(i) => {
            let digits = f.subrange(i + 1, digit_run_end(f, i + 1));
            if digits.len() > 0 && crate::text::digits_value(digits) <= 255 {
                Some(crate::text::digits_value(digits) as u8)
            } else {
                None
            }
        },
    }
}

proof fn lemma_last_of(s: Seq<char>, c: char, i: int)
    requires
        0 <= i < s.len(),
        s[i] == c,
        forall|k: int| i < k < s.len() ==> s[k] != c,
    ensures
        last_of(s, c) == Some(i),
    decreases s.len(),
{
    if s.last() != c {
        lemma_last_of(s.drop_last(), c, i);
    }
}

proof fn lemma_last_of_none(s: Seq<char>, c: char)
    requires
        forall|k: int| 0 <= k < s.len() ==> s[k] != c,
    ensures
        last_of(s, c) is None,
    decreases s.len(),
{
    if s.len() > 0 {
        lemma_last_of_none(s.drop_last(), c);
    }
}

proof fn lemma_digit_run_end(s: Seq<char>, i: int, j: int)
    requires
        0 <= i <= j <= s.len(),
        forall|k: int| i <= k < j ==> crate::text::is_digit(s[k]),
        j == s.len() || !crate::text::is_digit(s[j]),
    ensures
        digit_run_end(s, i) == j,
    decreases j - i,
{
    if i < j {
        lemma_digit_run_end(s, i + 1, j);
    }
}

/// Extracts the explicit bit depth of a pixel format name.
pub fn pixel_format_bit_depth(pix_fmt: &str) -> (r: Option<u8>)
    ensures
        r == bit_depth(pix_fmt@),
{
    let v = chars_of(pix_fmt);
    let mut i = v.len();
    while i > 0 && v[i - 1] != 'p'
        invariant
            v@ == pix_fmt@,
            i <= v.len(),
            forall|k: int| i <= k < v.len() ==> v@[k] != 'p',
        decreases i,
    {
        i = i - 1;
    }
    if i == 0 {
        proof {
            lemma_last_of_none(v@, 'p');
        }
        return None;
    }
    proof {
        lemma_last_of(v@, 'p', i - 1);
    }
    let mut end = i;
    while end < v.len() && crate::text::char_is_digit(v[end])
        invariant
            v@ == pix_fmt@,
            i <= end <= v.len(),
            forall|k: int| i <= k < end ==> crate::text::is_digit(v@[k]),
        decreases v.len() - end,
    {
        end = end + 1;
    }
    proof {
        lemma_digit_run_end(v@, i as int, end as int);
        let digits = v@.subrange(i as int, end as int);
        assert forall|k: int| 0 <= k < digits.len() implies crate::text::is_digit(#[trigger] digits[k]) by {
            assert(digits[k] == v@[i + k]);
        }
    }
    if end == i {
        return None;
    }
    match crate::text::digits_upto(&v, i, end, 255) {
        Some(x) => Some(x as u8),
        None => None,
    }
}

/// Whether `text` contains any of `needles`, ignoring ASCII case.
pub open spec fn contains_any_ic(text: Seq<char>, needles: Seq<Seq<char>>) -> bool {
    exists|i: int| 0 <= i < needles.len() && contains(lower(text), lower(#[trigger] needles[i]))
}

/// Checks whether a text contains any of several words, ignoring case.
pub fn contains_any_ignore_case(text: &str, needles: &Vec<&str>) -> (r: bool)
    ensures
        r == contains_any_ic(text@, crate::text::str_views(needles@)),
{
    let low = lowered(text);
    let mut i: usize = 0;
    while i < needles.len()
        invariant
            i <= needles.len(),
            low@ == lower(text@),
            forall|q: int| 0 <= q < i ==> !contains(lower(text@), lower(#[trigger] needles@[q]@)),
        decreases needles.len() - i,
    {
        let n = lowered(needles[i]);
        if contains_str(low.as_str(), n.as_str()) {
            assert(crate::text::str_views(needles@)[i as int] == needles@[i as int]@);
            return true;
        }
        i = i + 1;
    }
    proof {
        if contains_any_ic(text@, crate::text::str_views(needles@)) {
            let q = choose|q: int|
                0 <= q < needles@.len() && contains(
                    lower(text@),
                    lower(#[trigger] crate::text::str_views(needles@)[q]),
                );
            assert(crate::text::str_views(needles@)[q] == needles@[q]@);
        }
    }
    false
}

/// The family a source codec name belongs to, which decides how its quality
/// settings map onto AV1's.
#[derive(Debug, Clone, Copy, PartialEq, Eq, Structural)]
pub enum SourceCodecFamily {
    Av1,
    H265,
    H264,
    Vp9,
    Vp8,
    ProRes,
    Mpeg4Part2,
    Mpeg2,
    Mpeg1,
    H263,
    Theora,
    Vc1,
    Mjpeg,
    Dv,
    Other,
}

/// The families in the order they are tested, each with the words that pick
/// it; the first family with a word in the codec name wins.
pub open spec fn family_words() -> Seq<(SourceCodecFamily, Seq<Seq<char>>)> {
    seq![
        (SourceCodecFamily::Av1, seq!["av1"@, "av01"@]),
        (SourceCodecFamily::H265, seq!["hevc"@, "h265"@, "h.265"@, "hvc1"@, "hev1"@]),
        (SourceCodecFamily::H264, seq!["h264"@, "h.264"@, "avc"@, "avc1"@]),
        (SourceCodecFamily::Vp9, seq!["vp9"@, "vp09"@]),
        (SourceCodecFamily::Vp8, seq!["vp8"@, "vp08"@]),
        (SourceCodecFamily::ProRes, seq!["prores"@, "apch"@, "apcn"@, "apcs"@, "ap4h"@]),
        (SourceCodecFamily::Mpeg4Part2, seq!["mpeg4"@, "mp4v"@, "xvid"@, "divx"@, "msmpeg4"@]),
        (SourceCodecFamily::Mpeg2, seq!["mpeg2"@, "mpg2"@]),
        (SourceCodecFamily::Mpeg1, seq!["mpeg1"@, "mpg1"@]),
        (SourceCodecFamily::H263, seq!["h263"@, "h.263"@]),
        (SourceCodecFamily::Theora, seq!["theora"@]),
        (SourceCodecFamily::Vc1, seq!["vc1"@, "vc-1"@, "wmv3"@, "wmv2"@, "wmv1"@]),
        (SourceCodecFamily::Mjpeg, seq!["mjpeg"@, "mjpegb"@, "jpeg"@]),
        (SourceCodecFamily::Dv, seq!["dvvideo"@, "dvc"@, "dv "@]),
    ]
}

/// The first family in `rows[i..]` with a word in `name`; `Other` when none.
pub open spec fn family_from(rows: Seq<(SourceCodecFamily, Seq<Seq<char>>)>, name: Seq<char>, i: int) -> SourceCodecFamily
    decreases rows.len() - i,
{
    if i < 0 || i >= rows.len() {
        SourceCodecFamily::Other
    } else if contains_any_ic(name, rows[i].1) {
        rows[i].0
    } else {
        family_from(rows, name, i + 1)
    }
}

/// Classifies a source codec name.
pub fn source_codec_family(codec: &str) -> (r: SourceCodecFamily)
    ensures
        r == family_from(family_words(), lower(codec@), 0),
{
    let lowered_name = lowered(codec);
    let c = lowered_name.as_str();
    let rows: Vec<(SourceCodecFamily, Vec<&str>)> = vec![
        (SourceCodecFamily::Av1, vec!["av1", "av01"]),
        (SourceCodecFamily::H265, vec!["hevc", "h265", "h.265", "hvc1", "hev1"]),
        (SourceCodecFamily::H264, vec!["h264", "h.264", "avc", "avc1"]),
        (SourceCodecFamily::Vp9, vec!["vp9", "vp09"]),
        (SourceCodecFamily::Vp8, vec!["vp8", "vp08"]),
        (SourceCodecFamily::ProRes, vec!["prores", "apch", "apcn", "apcs", "ap4h"]),
        (SourceCodecFamily::Mpeg4Part2, vec!["mpeg4", "mp4v", "xvid", "divx", "msmpeg4"]),
        (SourceCodecFamily::Mpeg2, vec!["mpeg2", "mpg2"]),
        (SourceCodecFamily::Mpeg1, vec!["mpeg1", "mpg1"]),
        (SourceCodecFamily::H263, vec!["h263", "h.263"]),
        (SourceCodecFamily::Theora, vec!["theora"]),
        (SourceCodecFamily::Vc1, vec!["vc1", "vc-1", "wmv3", "wmv2", "wmv1"]),
        (SourceCodecFamily::Mjpeg, vec!["mjpeg", "mjpegb", "jpeg"]),
        (SourceCodecFamily::Dv, vec!["dvvideo", "dvc", "dv "]),
    ];
    let ghost table = family_words();
    assert(rows@.len() == table.len());
    assert forall|i: int| 0 <= i < rows@.len() implies (#[trigger] rows@[i]).0 == table[i].0
        && crate::text::str_views(rows@[i].1@) == table[i].1 by {
        assert(crate::text::str_views(rows@[i].1@) =~= table[i].1);
    }
    let mut i: usize = 0;
    while i < rows.len()
        invariant
            i <= rows@.len(),
            lowered_name@ == lower(codec@),
            c@ == lower(codec@),
            table == family_words(),
            rows@.len() == table.len(),
            forall|j: int| 0 <= j < rows@.len() ==> (#[trigger] rows@[j]).0 == table[j].0
                && crate::text::str_views(rows@[j].1@) == table[j].1,
            family_from(table, lower(codec@), 0) == family_from(table, lower(codec@), i as int),
        decreases rows.len() - i,
    {
        let row = &rows[i];
        assert(row.0 == table[i as int].0);
        assert(crate::text::str_views(row.1@) == table[i as int].1);
        let hit = contains_any_ignore_case(c, &row.1);
        assert(hit == contains_any_ic(lower(codec@), table[i as int].1));
        if hit {
            return row.0;
        }
        i = i + 1;
    }
    SourceCodecFamily::Other
}

/// Colour details the output is allowed to lose for one attempt. Nothing is
/// ever exempt under strict preservation; under flexible preservation a
/// field is exempt only when the chosen codec cannot record it.
#[derive(Debug, Clone, Copy, Default, PartialEq, Eq, Structural)]
pub struct MetadataExemptions {
    pub chroma_location: bool,
    pub color_primaries: bool,
    pub color_transfer: bool,
    pub color_space: bool,
    pub color_range: bool,
}

/// The colour fields of a source that the metadata rules look at.
#[derive(Debug, Clone, PartialEq, Eq)]
pub struct ColorFields {
    pub chroma_location: Option<String>,
    pub color_range: Option<String>,
    pub color_primaries: Option<String>,
    pub color_transfer: Option<String>,
    pub color_space: Option<String>,
}

/// Which colour details a codec cannot record for a source. A codec with no
/// metadata filter cannot state any of them.
pub open spec fn exemptions_spec(codec: TargetCodec, c: ColorFields) -> MetadataExemptions {
    if codec == TargetCodec::Vvc {
        MetadataExemptions {
            chroma_location: true,
            color_primaries: true,
            color_transfer: true,
            color_space: true,
            color_range: true,
        }
    } else {
        MetadataExemptions {
            chroma_location: match opt_chars(c.chroma_location) {
                Some(v) => chroma_location_spec(codec, v) is None,
                None => false,
            },
            color_primaries: match opt_chars(c.color_primaries) {
                Some(v) => av1_primaries(v) is None,
                None => false,
            },
            color_transfer: match opt_chars(c.color_transfer) {
                Some(v) => av1_transfer(v) is None,
                None => false,
            },
            color_space: match opt_chars(c.color_space) {
                Some(v) => av1_matrix(v) is None,
                None => false,
            },
            color_range: match opt_chars(c.color_range) {
                Some(v) => range_is_full(v) is None,
                None => false,
            },
        }
    }
}

/// Works out which colour details the chosen codec cannot record for a
/// source.
pub fn metadata_exemptions_for(codec: TargetCodec, colors: &ColorFields) -> (r: MetadataExemptions)
    ensures
        r == exemptions_spec(codec, *colors),
{
    let filter = match metadata_filter(codec) {
        Some(f) => f,
        None => {
            return MetadataExemptions {
                chroma_location: true,
                color_primaries: true,
                color_transfer: true,
                color_space: true,
                color_range: true,
            };
        },
    };
    let chroma_location = filter.chroma.is_none() || match &colors.chroma_location {
        Some(v) => crate::codec::chroma_location_value(codec, v.as_str()).is_none(),
        None => false,
    };
    let color_range = match &colors.color_range {
        Some(v) => crate::codec::color_range_value(codec, v.as_str()).is_none(),
        None => false,
    };
    let color_primaries = match &colors.color_primaries {
        Some(v) => av1_color_primaries_value(v.as_str()).is_none(),
        None => false,
    };
    let color_transfer = match &colors.color_transfer {
        Some(v) => av1_transfer_characteristics_value(v.as_str()).is_none(),
        None => false,
    };
    let color_space = match &colors.color_space {
        Some(v) => av1_matrix_coefficients_value(v.as_str()).is_none(),
        None => false,
    };
    MetadataExemptions { chroma_location, color_primaries, color_transfer, color_space, color_range }
}

/// One sentence per accepted colour exemption, each with a stable kind.
pub open spec fn exemption_lines(e: MetadataExemptions, codec: TargetCodec) -> Seq<(Seq<char>, Seq<char>)> {
    let name = codec.label_text();
    (if e.chroma_location {
        seq![("chroma_location"@, name + " cannot record where colour samples sit, so that note is lost. Picture data is unchanged."@)]
    } else {
        Seq::empty()
    }) + (if e.color_primaries {
        seq![("color_primaries"@, name + " cannot record this colour space name, so players fall back to the usual one."@)]
    } else {
        Seq::empty()
    }) + (if e.color_transfer {
        seq![("color_transfer"@, name + " cannot record this brightness curve, so players fall back to the usual one."@)]
    } else {
        Seq::empty()
    }) + (if e.color_space {
        seq![("color_space"@, name + " cannot record this colour matrix, so players fall back to the usual one."@)]
    } else {
        Seq::empty()
    }) + (if e.color_range {
        seq![("color_range"@, name + " cannot record the black-and-white level range, so players assume the usual one."@)]
    } else {
        Seq::empty()
    })
}

/// Describes each accepted colour exemption for the user.
pub fn exemption_descriptions(exempt: &MetadataExemptions, codec: TargetCodec) -> (r: Vec<(String, String)>)
    ensures
        crate::probe::pair_views(r@) == exemption_lines(*exempt, codec),
{
    let name = codec.label();
    let mut changes: Vec<(String, String)> = Vec::new();
    let ghost mut expect: Seq<(Seq<char>, Seq<char>)> = Seq::empty();
    assert(crate::probe::pair_views(changes@) =~= expect);
    if exempt.chroma_location {
        let d = join2(name, " cannot record where colour samples sit, so that note is lost. Picture data is unchanged.");
        let k = copy_str("chroma_location");
        proof { expect = expect.push((k@, d@)); }
        let ghost before = crate::probe::pair_views(changes@);
        changes.push((k, d));
        assert(crate::probe::pair_views(changes@) =~= expect);
    }
    if exempt.color_primaries {
        let d = join2(name, " cannot record this colour space name, so players fall back to the usual one.");
        let k = copy_str("color_primaries");
        proof { expect = expect.push((k@, d@)); }
        changes.push((k, d));
        assert(crate::probe::pair_views(changes@) =~= expect);
    }
    if exempt.color_transfer {
        let d = join2(name, " cannot record this brightness curve, so players fall back to the usual one.");
        let k = copy_str("color_transfer");
        proof { expect = expect.push((k@, d@)); }
        changes.push((k, d));
        assert(crate::probe::pair_views(changes@) =~= expect);
    }
    if exempt.color_space {
        let d = join2(name, " cannot record this colour matrix, so players fall back to the usual one.");
        let k = copy_str("color_space");
        proof { expect = expect.push((k@, d@)); }
        changes.push((k, d));
        assert(crate::probe::pair_views(changes@) =~= expect);
    }
    if exempt.color_range {
        let d = join2(name, " cannot record the black-and-white level range, so players assume the usual one.");
        let k = copy_str("color_range");
        proof { expect = expect.push((k@, d@)); }
        changes.push((k, d));
        assert(crate::probe::pair_views(changes@) =~= expect);
    }
    assert(expect =~= exemption_lines(*exempt, codec));
    changes
}

/// Whether two colour values name the same thing, ignoring ASCII case.
pub fn color_metadata_matches(source: &str, output: &str) -> (r: bool)
    ensures
        r == eq_ignore_case(source@, output@),
{
    eq_ignore_case_str(source, output)
}

/// How one encode attempt treats the source's pixels.
#[derive(Debug, Clone, Copy, PartialEq, Eq)]
pub enum TranscodePlanKind {
    /// Keep every source video property.
    Exact,
    /// Change the pixel format, for an encoder that needs it.
    Adapted { output_pix_fmt: &'static str, description: &'static str },
}

impl TranscodePlanKind {
    /// The stable event label of a plan.
    pub fn label(&self) -> (r: &'static str)
        ensures
            r@ == (match *self {
                TranscodePlanKind::Exact => "exact"@,
                TranscodePlanKind::Adapted { .. } => "adapted"@,
            }),
    {
        match self {
            TranscodePlanKind::Exact => "exact",
            TranscodePlanKind::Adapted { .. } => "adapted",
        }
    }

    /// The pixel format an adapted plan converts to; none for an exact one.
    pub fn output_pix_fmt(&self) -> (r: Option<&'static str>)
        ensures
            r == (match *self {
                TranscodePlanKind::Exact => None,
                TranscodePlanKind::Adapted { output_pix_fmt, .. } => Some(output_pix_fmt),
            }),
    {
        match self {
            TranscodePlanKind::Exact => None,
            TranscodePlanKind::Adapted { output_pix_fmt, .. } => Some(*output_pix_fmt),
        }
    }

    /// What the plan does, for the user.
    pub fn description(&self) -> (r: &'static str)
        ensures
            r@ == (match *self {
                TranscodePlanKind::Exact => "preserve source video properties"@,
                TranscodePlanKind::Adapted { description, .. } => description@,
            }),
    {
        match self {
            TranscodePlanKind::Exact => "preserve source video properties",
            TranscodePlanKind::Adapted { description, .. } => *description,
        }
    }
}

/// An encode attempt that failed, and whether another encoder may succeed.
#[derive(Debug)]
pub struct TranscodeAttemptError {
    pub message: String,
    pub retryable: bool,
}

impl TranscodeAttemptError {
    /// A failure the next encoder may avoid.
    pub fn retryable(message: String) -> (r: Self)
        ensures
            r.message@ == message@,
            r.retryable,
    {
        TranscodeAttemptError { message, retryable: true }
    }

    /// A failure that ends the file's conversion.
    pub fn terminal(message: String) -> (r: Self)
        ensures
            r.message@ == message@,
            !r.retryable,
    {
        TranscodeAttemptError { message, retryable: false }
    }
}

/// Why a file was left alone before any encode.
#[derive(Debug, Clone)]
pub enum SkipReason {
    /// The output, backup or temporary path already exists.
    Conflict,
    /// Converting would lose something; the detail says what.
    UnsafeReplacement(String),
}

/// Describes a skip reason for the user.
pub fn skip_reason_label(reason: &SkipReason) -> (r: String)
    ensures
        r@ == (match reason {
            SkipReason::Conflict => "output or backup path already exists"@,
            SkipReason::UnsafeReplacement(detail) => detail@,
        }),
{
    match reason {
        SkipReason::Conflict => copy_str("output or backup path already exists"),
        SkipReason::UnsafeReplacement(detail) => detail.clone(),
    }
}

/// Why an explicitly interlaced source is left alone: deinterlacing changes
/// the picture itself. Progressive or unknown field order is no reason.
pub fn interlaced_source_reason(field_order: Option<&str>) -> (r: Option<String>)
    ensures
        match field_order {
            None => r is None,
            Some(f) => if f@ == "progressive"@ {
                r is None
            } else {
                r matches Some(m) && m@ == "interlaced source (field_order="@ + f@
                    + "); MyVidComp does not deinterlace"@
            },
        },
{
    match field_order {
        None => None,
        Some(f) => {
            if str_eq(f, "progressive") {
                None
            } else {
                Some(crate::text::join3("interlaced source (field_order=", f, "); MyVidComp does not deinterlace"))
            }
        },
    }
}

} // verus!
