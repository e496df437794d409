//! Picking an encoder, and reading what ffmpeg said when one failed.
//!
//! `ffmpeg -encoders` lists what a build was compiled with. The candidates for
//! a codec are tried in a fixed order, graphics-card encoders first, and each
//! advertised one still has to pass a one-frame runtime check before a run
//! relies on it; that check is the caller's to run.
use vstd::prelude::*;
use crate::codec::{canonical_encoder_name, canonical_encoder_spec, encoder_candidates, encoder_table, EncoderKind};
use crate::options::TargetCodec;
use crate::text::{
    append_all, chars_of, contains, contains_str, copy_str, first_of, is_space, join2, lines,
    lower, lowered, occurs_at, occurs_at_seq, owned_all, split_lines, starts_with,
    starts_with_str, str_eq, str_views, trim, trimmed, views, char_is_space,
};

verus! {

/// An encoder the run may use.
#[derive(Debug, Clone)]
pub struct Encoder {
    pub name: String,
    pub kind: EncoderKind,
}

impl Encoder {
    /// Whether an encoder runs on a graphics card: the vendor hardware
    /// encoders and Vulkan.
    pub fn is_gpu(&self) -> (r: bool)
        ensures
            r == (self.kind == EncoderKind::Hardware || self.kind == EncoderKind::Vulkan),
    {
        match self.kind {
            EncoderKind::Hardware | EncoderKind::Vulkan => true,
            _ => false,
        }
    }
}

/// The encoders that passed their checks, best first.
#[derive(Debug, Clone)]
pub struct EncoderSelection {
    pub candidates: Vec<Encoder>,
    /// Whether the user named the encoder, in which case no other is tried.
    pub explicit: bool,
}

impl EncoderSelection {
    /// The preferred encoder: the first candidate. A selection is never built
    /// without one.
    pub fn preferred(&self) -> (r: &Encoder)
        requires
            self.candidates.len() > 0,
        ensures
            r == self.candidates@[0],
    {
        &self.candidates[0]
    }
}

/// Whether a line names `name` as one whitespace-separated word.
pub open spec fn has_word(line: Seq<char>, name: Seq<char>) -> bool {
    &&& name.len() > 0
    &&& forall|j: int| 0 <= j < name.len() ==> !is_space(#[trigger] name[j])
    &&& exists|i: int|
        #![trigger occurs_at(line, name, i)]
        occurs_at(line, name, i) && (i == 0 || is_space(line[i - 1])) && (i + name.len()
            == line.len() || is_space(line[i + name.len()]))
}

/// Whether an `ffmpeg -encoders` listing names `name` as a word on some line.
pub open spec fn listing_names(listing: Seq<char>, name: Seq<char>) -> bool {
    exists|k: int| 0 <= k < lines(listing).len() && has_word(#[trigger] lines(listing)[k], name)
}

fn line_has_word(line: &Vec<char>, name: &Vec<char>) -> (r: bool)
    ensures
        r == has_word(line@, name@),
{
    if name.len() == 0 {
        return false;
    }
    let mut j: usize = 0;
    while j < name.len()
        invariant
            j <= name.len(),
            forall|q: int| 0 <= q < j ==> !is_space(#[trigger] name@[q]),
        decreases name.len() - j,
    {
        if char_is_space(name[j]) {
            return false;
        }
        j = j + 1;
    }
    let mut i: usize = 0;
    while i < line.len()
        invariant
            i <= line.len(),
            name@.len() > 0,
            forall|q: int| 0 <= q < name@.len() ==> !is_space(#[trigger] name@[q]),
            forall|q: int|
                #![trigger occurs_at(line@, name@, q)]
                0 <= q < i ==> !(occurs_at(line@, name@, q) && (q == 0 || is_space(line@[q - 1])) && (q
                    + name@.len() == line@.len() || is_space(line@[q + name@.len()]))),
        decreases line.len() - i,
    {
        if occurs_at_seq(line, name, i) {
            let before = i == 0 || char_is_space(line[i - 1]);
            let end = i + name.len();
            let after = end == line.len() || char_is_space(line[end]);
            if before && after {
                return true;
            }
        }
        i = i + 1;
    }
    proof {
        assert forall|q: int|
            #![trigger occurs_at(line@, name@, q)]
            !(occurs_at(line@, name@, q) && (q == 0 || is_space(line@[q - 1])) && (q + name@.len()
                == line@.len() || is_space(line@[q + name@.len()]))) by {
            if q >= i && occurs_at(line@, name@, q) {
                assert(q + name@.len() <= line@.len());
            }
        }
    }
    false
}

/// Whether an `ffmpeg -encoders` listing names an encoder.
pub fn encoder_list_contains(encoders: &str, name: &str) -> (r: bool)
    ensures
        r == listing_names(encoders@, name@),
{
    let all_lines = split_lines(encoders);
    let n = chars_of(name);
    let mut k: usize = 0;
    while k < all_lines.len()
        invariant
            k <= all_lines@.len(),
            n@ == name@,
            all_lines@.len() == lines(encoders@).len(),
            forall|q: int| 0 <= q < all_lines@.len() ==> (#[trigger] all_lines@[q])@ == lines(encoders@)[q],
            forall|q: int| 0 <= q < k ==> !has_word(#[trigger] lines(encoders@)[q], name@),
        decreases all_lines.len() - k,
    {
        let line = chars_of(all_lines[k].as_str());
        if line_has_word(&line, &n) {
            return true;
        }
        k = k + 1;
    }
    false
}

/// The rows of `table` whose encoder the listing names, in table order.
pub open spec fn advertised_rows(table: Seq<(Seq<char>, EncoderKind)>, listing: Seq<char>) -> Seq<
    (Seq<char>, EncoderKind),
>
    decreases table.len(),
{
    if table.len() == 0 {
        Seq::empty()
    } else {
        let rest = advertised_rows(table.drop_last(), listing);
        if listing_names(listing, table.last().0) {
            rest.push(table.last())
        } else {
            rest
        }
    }
}

/// Whether a list of encoders holds exactly these names and kinds, in order.
pub open spec fn encoders_are(r: Seq<Encoder>, rows: Seq<(Seq<char>, EncoderKind)>) -> bool {
    &&& r.len() == rows.len()
    &&& forall|i: int| 0 <= i < r.len() ==> (#[trigger] r[i]).name@ == rows[i].0 && r[i].kind == rows[i].1
}

/// The encoders for a codec that an `ffmpeg -encoders` listing advertises,
/// in the deterministic order they are checked: graphics cards first.
pub fn detect_encoder_candidates_from_listing(encoders: &str, codec: TargetCodec) -> (r: Vec<Encoder>)
    ensures
        encoders_are(r@, advertised_rows(encoder_table(codec), encoders@)),
{
    let table = encoder_candidates(codec);
    let ghost rows = encoder_table(codec);
    let mut r: Vec<Encoder> = Vec::new();
    let mut i: usize = 0;
    while i < table.len()
        invariant
            rows == encoder_table(codec),
            crate::codec::matches_table(table@, rows),
            i <= table.len(),
            encoders_are(r@, advertised_rows(rows.subrange(0, i as int), encoders@)),
        decreases table.len() - i,
    {
        let (name, kind) = table[i];
        let ghost before = r@;
        proof {
            let prefix = rows.subrange(0, i as int);
            let next = rows.subrange(0, i + 1);
            assert(next.drop_last() =~= prefix);
            assert(next.last() == rows[i as int]);
        }
        if encoder_list_contains(encoders, name) {
            r.push(Encoder { name: copy_str(name), kind });
        }
        i = i + 1;
    }
    assert(rows.subrange(0, rows.len() as int) =~= rows);
    r
}

/// The first advertised encoder for AV1, if any.
pub fn detect_encoder_from_listing(encoders: &str) -> (r: Option<Encoder>)
    ensures
        match r {
            Some(e) => advertised_rows(encoder_table(TargetCodec::Av1), encoders@).len() > 0 && e.name@
                == advertised_rows(encoder_table(TargetCodec::Av1), encoders@)[0].0 && e.kind
                == advertised_rows(encoder_table(TargetCodec::Av1), encoders@)[0].1,
            None => advertised_rows(encoder_table(TargetCodec::Av1), encoders@).len() == 0,
        },
{
    let mut all = detect_encoder_candidates_from_listing(encoders, TargetCodec::Av1);
    if all.len() == 0 {
        None
    } else {
        Some(all.remove(0))
    }
}

/// `a, b, c`: names joined by a comma and a space.
pub open spec fn comma_joined(names: Seq<Seq<char>>) -> Seq<char>
    decreases names.len(),
{
    if names.len() == 0 {
        Seq::empty()
    } else if names.len() == 1 {
        names[0]
    } else {
        comma_joined(names.drop_last()) + ", "@ + names.last()
    }
}

pub open spec fn table_names(table: Seq<(Seq<char>, EncoderKind)>) -> Seq<Seq<char>> {
    table.map_values(|row: (Seq<char>, EncoderKind)| row.0)
}

/// The names of every encoder a codec can use, best first.
pub fn supported_encoder_names(codec: TargetCodec) -> (r: Vec<&'static str>)
    ensures
        str_views(r@) == table_names(encoder_table(codec)),
{
    let table = encoder_candidates(codec);
    let mut r: Vec<&'static str> = Vec::new();
    let mut i: usize = 0;
    while i < table.len()
        invariant
            crate::codec::matches_table(table@, encoder_table(codec)),
            i <= table.len(),
            r@.len() == i,
            forall|k: int| 0 <= k < i ==> (#[trigger] r@[k])@ == encoder_table(codec)[k].0,
        decreases table.len() - i,
    {
        r.push(table[i].0);
        i = i + 1;
    }
    assert(str_views(r@) =~= table_names(encoder_table(codec)));
    r
}

fn joined_names(names: &Vec<&'static str>) -> (r: String)
    ensures
        r@ == comma_joined(str_views(names@)),
{
    let mut out = String::new();
    let mut i: usize = 0;
    assert(str_views(names@.subrange(0, 0)) =~= Seq::<Seq<char>>::empty());
    while i < names.len()
        invariant
            i <= names.len(),
            out@ == comma_joined(str_views(names@.subrange(0, i as int))),
        decreases names.len() - i,
    {
        let ghost prev = str_views(names@.subrange(0, i as int));
        let ghost next = str_views(names@.subrange(0, i + 1));
        assert(next.drop_last() =~= prev);
        if i > 0 {
            out.append(", ");
        }
        out.append(names[i]);
        i = i + 1;
        proof {
            if i == 1 {
                assert(out@ =~= comma_joined(next));
            }
        }
    }
    assert(names@.subrange(0, names@.len() as int) =~= names@);
    out
}

/// The encoder a user-supplied name picks for a codec: the first table row
/// whose name is the alias-expanded name.
pub open spec fn named_row(table: Seq<(Seq<char>, EncoderKind)>, wanted: Seq<char>) -> Option<
    (Seq<char>, EncoderKind),
>
    decreases table.len(),
{
    if table.len() == 0 {
        None
    } else if table[0].0 == wanted {
        Some(table[0])
    } else {
        named_row(table.drop_first(), wanted)
    }
}

/// Resolves a user-supplied encoder name for a codec, expanding short
/// aliases; a name no candidate carries is refused with the list of names
/// that would have worked.
pub fn encoder_from_name(name: &str, codec: TargetCodec) -> (r: Result<Encoder, String>)
    ensures
        match named_row(encoder_table(codec), canonical_encoder_spec(name@, codec)) {
            Some(row) => r matches Ok(e) && e.name@ == row.0 && e.kind == row.1,
            None => r matches Err(msg) && msg@ == "unsupported encoder: "@ + name@
                + ". Supported values: auto, "@ + comma_joined(table_names(encoder_table(codec))),
        },
{
    let normalized = canonical_encoder_name(name, codec);
    let table = encoder_candidates(codec);
    let ghost rows = encoder_table(codec);
    let ghost wanted = normalized@;
    let mut i: usize = 0;
    assert(rows.subrange(0, rows.len() as int) =~= rows);
    while i < table.len()
        invariant
            rows == encoder_table(codec),
            wanted == normalized@,
            wanted == canonical_encoder_spec(name@, codec),
            crate::codec::matches_table(table@, rows),
            i <= table.len(),
            named_row(rows, wanted) == named_row(rows.subrange(i as int, rows.len() as int), wanted),
        decreases table.len() - i,
    {
        let ghost rest = rows.subrange(i as int, rows.len() as int);
        assert(rest[0] == rows[i as int]);
        if str_eq(table[i].0, normalized.as_str()) {
            assert(rest.len() > 0);
            assert(rest[0].0 == wanted);
            assert(named_row(rest, wanted) == Some(rest[0]));
            return Ok(Encoder { name: copy_str(table[i].0), kind: table[i].1 });
        }
        assert(rest.drop_first() =~= rows.subrange(i + 1, rows.len() as int));
        i = i + 1;
    }
    let names = supported_encoder_names(codec);
    let joined = joined_names(&names);
    let mut msg = join2("unsupported encoder: ", name);
    msg.append(". Supported values: auto, ");
    msg.append(joined.as_str());
    Err(msg)
}

/// The arguments that set a quality for a one-frame runtime check.
pub open spec fn runtime_quality_args(kind: EncoderKind) -> Seq<Seq<char>> {
    match kind {
        EncoderKind::Hardware => seq!["-b:v"@, "600k"@],
        EncoderKind::Vulkan => seq!["-crf"@, "32"@, "-b:v"@, "0"@],
        EncoderKind::SvtAv1 => seq!["-crf"@, "32"@, "-preset"@, "10"@],
        EncoderKind::LibAom => seq!["-crf"@, "32"@, "-b:v"@, "0"@, "-cpu-used"@, "8"@],
        EncoderKind::Rav1e => seq!["-qp"@, "80"@, "-speed"@, "10"@],
        EncoderKind::X265 => seq!["-crf"@, "32"@, "-preset"@, "ultrafast"@],
        EncoderKind::Vvenc => seq!["-qp"@, "40"@, "-preset"@, "faster"@],
        EncoderKind::MediaCodec => seq!["-b:v"@, "600k"@, "-bitrate_mode"@, "1"@],
    }
}

/// The quality arguments for a one-frame runtime check: fast, and modest
/// enough that every encoder of the family accepts them.
pub fn encoder_runtime_quality_args(encoder: &Encoder) -> (r: Vec<String>)
    ensures
        views(r@) == runtime_quality_args(encoder.kind),
{
    let items: Vec<&str> = match encoder.kind {
        EncoderKind::Hardware => vec!["-b:v", "600k"],
        EncoderKind::Vulkan => vec!["-crf", "32", "-b:v", "0"],
        EncoderKind::SvtAv1 => vec!["-crf", "32", "-preset", "10"],
        EncoderKind::LibAom => vec!["-crf", "32", "-b:v", "0", "-cpu-used", "8"],
        EncoderKind::Rav1e => vec!["-qp", "80", "-speed", "10"],
        EncoderKind::X265 => vec!["-crf", "32", "-preset", "ultrafast"],
        EncoderKind::Vvenc => vec!["-qp", "40", "-preset", "faster"],
        EncoderKind::MediaCodec => vec!["-b:v", "600k", "-bitrate_mode", "1"],
    };
    let r = owned_all(items);
    assert(views(r@) =~= runtime_quality_args(encoder.kind));
    r
}

/// The ffmpeg arguments that encode one generated frame with an encoder and
/// throw the result away, which proves the encoder works on this machine.
pub open spec fn runtime_check_args(name: Seq<char>, kind: EncoderKind) -> Seq<Seq<char>> {
    seq![
        "-hide_banner"@,
        "-loglevel"@,
        "error"@,
        "-nostdin"@,
        "-y"@,
        "-f"@,
        "lavfi"@,
        "-i"@,
        "testsrc2=size=640x360:rate=1"@,
        "-frames:v"@,
        "1"@,
        "-an"@,
        "-c:v"@,
        name,
    ] + runtime_quality_args(kind) + seq!["-f"@, "null"@, "-"@]
}

/// Builds the runtime-check arguments for one encoder.
pub fn encoder_runtime_check_args(encoder: &Encoder) -> (r: Vec<String>)
    ensures
        views(r@) == runtime_check_args(encoder.name@, encoder.kind),
{
    let mut args = owned_all(
        vec![
            "-hide_banner",
            "-loglevel",
            "error",
            "-nostdin",
            "-y",
            "-f",
            "lavfi",
            "-i",
            "testsrc2=size=640x360:rate=1",
            "-frames:v",
            "1",
            "-an",
            "-c:v",
        ],
    );
    let ghost head = views(args@);
    args.push(encoder.name.clone());
    let ghost with_name = views(args@);
    assert(with_name =~= head.push(encoder.name@));
    let quality = encoder_runtime_quality_args(encoder);
    append_all(&mut args, &quality);
    let tail = owned_all(vec!["-f", "null", "-"]);
    append_all(&mut args, &tail);
    assert(views(args@) =~= runtime_check_args(encoder.name@, encoder.kind));
    args
}

/// Picks an encoder for the user, as named: a name that is not advertised is
/// refused. `advertised` is the `ffmpeg -encoders` listing. The runtime check
/// that follows is the caller's.
pub fn requested_encoder(encoders: &str, requested: &str, codec: TargetCodec) -> (r: Result<
    Encoder,
    String,
>)
    ensures
        match named_row(encoder_table(codec), canonical_encoder_spec(requested@, codec)) {
            Some(row) => if listing_names(encoders@, row.0) {
                r matches Ok(e) && e.name@ == row.0 && e.kind == row.1
            } else {
                r matches Err(msg) && msg@ == "requested encoder "@ + row.0
                    + " is not advertised by ffmpeg"@
            },
            None => r matches Err(msg) && msg@ == "unsupported encoder: "@ + requested@
                + ". Supported values: auto, "@ + comma_joined(table_names(encoder_table(codec))),
        },
{
    let encoder = match encoder_from_name(requested, codec) {
        Ok(e) => e,
        Err(e) => {
            return Err(e);
        },
    };
    if !encoder_list_contains(encoders, encoder.name.as_str()) {
        return Err(
            crate::text::join3(
                "requested encoder ",
                encoder.name.as_str(),
                " is not advertised by ffmpeg",
            ),
        );
    }
    Ok(encoder)
}

/// Lines of ffmpeg output that are routine chatter: banners, progress, stream
/// descriptions.
pub open spec fn noise_prefixes() -> Seq<Seq<char>> {
    seq![
        "ffmpeg stats and -progress"@,
        "Input #"@,
        "Output #"@,
        "Stream #"@,
        "Stream mapping"@,
        "Metadata:"@,
        "Duration:"@,
        "encoder "@,
        "frame="@,
        "video:"@,
        "Press [q]"@,
        "configuration:"@,
    ]
}

/// Whether a line of ffmpeg output is chatter rather than a message worth
/// showing: a routine prefix, or a `key=value` progress pair whose key has no
/// space or colon.
pub open spec fn is_noise(line: Seq<char>) -> bool {
    ||| exists|i: int| 0 <= i < noise_prefixes().len() && starts_with(line, #[trigger] noise_prefixes()[i])
    ||| {
        let k = first_of(line, '=');
        k < line.len() && !contains(line.subrange(0, k as int), " "@) && !contains(
            line.subrange(0, k as int),
            ":"@,
        )
    }
}

/// Words that mark a line of ffmpeg output as an error.
pub open spec fn error_markers() -> Seq<Seq<char>> {
    seq![
        "error"@,
        "Error"@,
        "failed"@,
        "Failed"@,
        "Invalid"@,
        "invalid"@,
        "Unable"@,
        "not supported"@,
    ]
}

pub open spec fn looks_like_error(line: Seq<char>) -> bool {
    exists|i: int| 0 <= i < error_markers().len() && contains(line, #[trigger] error_markers()[i])
}

/// How ffmpeg's routine lines begin.
pub open spec fn routine_line_starts() -> Seq<Seq<char>> {
    seq![
        "ffmpeg stats and -progress"@,
        "Input #"@,
        "Output #"@,
        "Stream #"@,
        "Stream mapping"@,
        "Metadata:"@,
        "Duration:"@,
        "encoder "@,
        "frame="@,
        "video:"@,
        "Press [q]"@,
        "configuration:"@,
    ]
}

/// Words that show a line of ffmpeg output reports an error.
pub open spec fn error_words() -> Seq<Seq<char>> {
    seq![
        "error"@,
        "Error"@,
        "failed"@,
        "Failed"@,
        "Invalid"@,
        "invalid"@,
        "Unable"@,
        "not supported"@,
    ]
}

/// A line that begins like one of ffmpeg's routine lines is chatter, and a
/// line holding one of the error words looks like an error.
pub proof fn chatter_and_errors(line: Seq<char>)
    ensures
        forall|i: int| 0 <= i < routine_line_starts().len() && starts_with(line, #[trigger] routine_line_starts()[i])
            ==> is_noise(line),
        forall|i: int| 0 <= i < error_words().len() && contains(line, #[trigger] error_words()[i])
            ==> looks_like_error(line),
{
    assert(routine_line_starts() =~= noise_prefixes());
    assert(error_words() =~= error_markers());
}

fn any_prefix(line: &str, prefixes: &Vec<&str>) -> (r: bool)
    ensures
        r == exists|i: int| 0 <= i < prefixes@.len() && starts_with(line@, #[trigger] prefixes@[i]@),
{
    let mut i: usize = 0;
    while i < prefixes.len()
        invariant
            i <= prefixes.len(),
            forall|q: int| 0 <= q < i ==> !starts_with(line@, #[trigger] prefixes@[q]@),
        decreases prefixes.len() - i,
    {
        if starts_with_str(line, prefixes[i]) {
            return true;
        }
        i = i + 1;
    }
    false
}

fn any_contained(text: &str, needles: &Vec<&str>) -> (r: bool)
    ensures
        r == exists|i: int| 0 <= i < needles@.len() && contains(text@, #[trigger] needles@[i]@),
{
    let mut i: usize = 0;
    while i < needles.len()
        invariant
            i <= needles.len(),
            forall|q: int| 0 <= q < i ==> !contains(text@, #[trigger] needles@[q]@),
        decreases needles.len() - i,
    {
        if contains_str(text, needles[i]) {
            return true;
        }
        i = i + 1;
    }
    false
}

/// Whether a line of ffmpeg output is routine chatter.
pub fn is_ffmpeg_noise(line: &str) -> (r: bool)
    ensures
        r == is_noise(line@),
{
    let prefixes = vec![
        "ffmpeg stats and -progress",
        "Input #",
        "Output #",
        "Stream #",
        "Stream mapping",
        "Metadata:",
        "Duration:",
        "encoder ",
        "frame=",
        "video:",
        "Press [q]",
        "configuration:",
    ];
    assert(str_views(prefixes@) =~= noise_prefixes());
    let prefixed = any_prefix(line, &prefixes);
    proof {
        if prefixed {
            let i = choose|i: int| 0 <= i < prefixes@.len() && starts_with(line@, #[trigger] prefixes@[i]@);
            assert(noise_prefixes()[i] == str_views(prefixes@)[i]);
        }
        if exists|i: int| 0 <= i < noise_prefixes().len() && starts_with(line@, #[trigger] noise_prefixes()[i]) {
            let i = choose|i: int| 0 <= i < noise_prefixes().len() && starts_with(line@, #[trigger] noise_prefixes()[i]);
            assert(noise_prefixes()[i] == str_views(prefixes@)[i]);
        }
    }
    if prefixed {
        return true;
    }
    let v = chars_of(line);
    let k = crate::text::position_of(&v, '=');
    if k >= v.len() {
        return false;
    }
    let key = crate::text::collect_range(&v, 0, k);
    !contains_str(key.as_str(), " ") && !contains_str(key.as_str(), ":")
}

/// Whether a line of ffmpeg output reads like a failure.
pub fn line_looks_like_an_error(line: &str) -> (r: bool)
    ensures
        r == looks_like_error(line@),
{
    let markers = vec![
        "error",
        "Error",
        "failed",
        "Failed",
        "Invalid",
        "invalid",
        "Unable",
        "not supported",
    ];
    assert(str_views(markers@) =~= error_markers());
    let found = any_contained(line, &markers);
    proof {
        if found {
            let i = choose|i: int| 0 <= i < markers@.len() && contains(line@, #[trigger] markers@[i]@);
            assert(error_markers()[i] == str_views(markers@)[i]);
        }
        if looks_like_error(line@) {
            let i = choose|i: int| 0 <= i < error_markers().len() && contains(line@, #[trigger] error_markers()[i]);
            assert(error_markers()[i] == str_views(markers@)[i]);
        }
    }
    found
}

/// The trimmed, non-empty, non-chatter lines of ffmpeg output, in order.
pub open spec fn telling_lines(ls: Seq<Seq<char>>) -> Seq<Seq<char>>
    decreases ls.len(),
{
    if ls.len() == 0 {
        Seq::empty()
    } else {
        let rest = telling_lines(ls.drop_last());
        let t = trim(ls.last());
        if t.len() > 0 && !is_noise(t) {
            rest.push(t)
        } else {
            rest
        }
    }
}

/// The last line that reads like an error, if any.
pub open spec fn last_error_line(ls: Seq<Seq<char>>) -> Option<Seq<char>>
    decreases ls.len(),
{
    if ls.len() == 0 {
        None
    } else if looks_like_error(ls.last()) {
        Some(ls.last())
    } else {
        last_error_line(ls.drop_last())
    }
}

/// The line of ffmpeg output that explains a failure: the last one that reads
/// like an error, else the last thing it said, else `unknown error`.
pub open spec fn explaining_line(text: Seq<char>) -> Seq<char> {
    let ls = telling_lines(lines(text));
    match last_error_line(ls) {
        Some(l) => l,
        None => if ls.len() > 0 {
            ls.last()
        } else {
            "unknown error"@
        },
    }
}

/// Picks the line of ffmpeg output that actually explains a failure. ffmpeg
/// reports the problem near the end, after pages of stream descriptions and
/// progress.
pub fn first_error_line(text: &str) -> (r: String)
    ensures
        r@ == explaining_line(text@),
{
    let all_lines = split_lines(text);
    let ghost ls = lines(text@);
    let mut kept: Vec<String> = Vec::new();
    let mut i: usize = 0;
    while i < all_lines.len()
        invariant
            all_lines@.len() == ls.len(),
            ls == lines(text@),
            forall|q: int| 0 <= q < all_lines@.len() ==> (#[trigger] all_lines@[q])@ == ls[q],
            i <= all_lines.len(),
            views(kept@) == telling_lines(ls.subrange(0, i as int)),
        decreases all_lines.len() - i,
    {
        let t = trimmed(all_lines[i].as_str());
        let ghost before = kept@;
        proof {
            let next = ls.subrange(0, i + 1);
            assert(next.drop_last() =~= ls.subrange(0, i as int));
            assert(next.last() == ls[i as int]);
        }
        if t.as_str().unicode_len() > 0 && !is_ffmpeg_noise(t.as_str()) {
            let ghost tv = t@;
            kept.push(t);
            assert(views(kept@) =~= views(before).push(tv));
        }
        i = i + 1;
    }
    assert(ls.subrange(0, ls.len() as int) =~= ls);
    let ghost ks = views(kept@);
    let mut j: usize = kept.len();
    assert(ks.subrange(0, ks.len() as int) =~= ks);
    while j > 0
        invariant
            j <= kept@.len(),
            ks == views(kept@),
            ks == telling_lines(lines(text@)),
            last_error_line(ks) == last_error_line(ks.subrange(0, j as int)),
        decreases j,
    {
        let ghost sub = ks.subrange(0, j as int);
        assert(sub.last() == kept@[j - 1]@);
        if line_looks_like_an_error(kept[j - 1].as_str()) {
            assert(last_error_line(sub) == Some(sub.last()));
            let found = kept[j - 1].clone();
            assert(found@ == sub.last());
            return found;
        }
        assert(sub.drop_last() =~= ks.subrange(0, j - 1));
        j = j - 1;
    }
    if kept.len() > 0 {
        assert(ks.last() == kept@[kept@.len() - 1]@);
        assert(ks.subrange(0, 0) =~= Seq::<Seq<char>>::empty());
        let last = kept[kept.len() - 1].clone();
        assert(last@ == ks.last());
        last
    } else {
        copy_str("unknown error")
    }
}

/// Failures no other encoder can fix: the disk, the input, or the output.
pub open spec fn terminal_markers() -> Seq<Seq<char>> {
    seq![
        "no space left"@,
        "permission denied"@,
        "read-only file system"@,
        "input/output error"@,
        "invalid data found when processing input"@,
        "moov atom not found"@,
        "error while decoding"@,
        "error opening output"@,
    ]
}

/// Failures of one encoder or device that the next encoder may well avoid.
pub open spec fn retryable_markers() -> Seq<Seq<char>> {
    seq![
        "no capable devices found"@,
        "no nvenc capable devices"@,
        "cannot load nvcuda"@,
        "device does not support"@,
        "codec not supported"@,
        "unsupported pixel format"@,
        "pixel format is not supported"@,
        "unsupported profile"@,
        "unsupported dimensions"@,
        "invalid frame dimensions"@,
        "error while opening encoder"@,
        "failed to open encoder"@,
        "encoder initialization failed"@,
        "initialize encoder failed"@,
        "impossible to convert between the formats"@,
        "error reinitializing filters"@,
        "operation not permitted"@,
        "generic error in an external library"@,
    ]
}

pub open spec fn mentions_any(text: Seq<char>, markers: Seq<Seq<char>>) -> bool {
    exists|i: int| 0 <= i < markers.len() && contains(text, #[trigger] markers[i])
}

/// Whether an ffmpeg failure is worth retrying with the next encoder: never
/// for a known terminal failure, always for a known encoder or device
/// failure, and otherwise only when no line names an error at all, because
/// ffmpeg dying without explaining itself is usually a hardware wrapper
/// crashing, which the next encoder may well survive.
pub open spec fn encoder_retryable(stderr: Seq<char>) -> bool {
    let d = lower(stderr);
    if mentions_any(d, terminal_markers()) {
        false
    } else if mentions_any(d, retryable_markers()) {
        true
    } else {
        !exists|k: int|
            0 <= k < lines(d).len() && (contains(#[trigger] lines(d)[k], "error"@) || contains(
                lines(d)[k],
                "failed"@,
            ) || contains(lines(d)[k], "invalid"@))
    }
}

/// Failures that end a file's attempts, as ffmpeg words them in lower case.
pub open spec fn failures_that_stop() -> Seq<Seq<char>> {
    seq![
        "no space left"@,
        "permission denied"@,
        "read-only file system"@,
        "input/output error"@,
        "invalid data found when processing input"@,
        "moov atom not found"@,
        "error while decoding"@,
        "error opening output"@,
    ]
}

/// Failures of one encoder or device, as ffmpeg words them in lower case.
pub open spec fn failures_of_one_encoder() -> Seq<Seq<char>> {
    seq![
        "no capable devices found"@,
        "no nvenc capable devices"@,
        "cannot load nvcuda"@,
        "device does not support"@,
        "codec not supported"@,
        "unsupported pixel format"@,
        "pixel format is not supported"@,
        "unsupported profile"@,
        "unsupported dimensions"@,
        "invalid frame dimensions"@,
        "error while opening encoder"@,
        "failed to open encoder"@,
        "encoder initialization failed"@,
        "initialize encoder failed"@,
        "impossible to convert between the formats"@,
        "error reinitializing filters"@,
        "operation not permitted"@,
        "generic error in an external library"@,
    ]
}

/// A failure that mentions, in any case, the disk, the input or the output
/// going wrong is never retried with another encoder; one that mentions none
/// of those but does mention an encoder or device failing always is.
pub proof fn retries_follow_the_failure(stderr: Seq<char>)
    ensures
        forall|i: int|
            0 <= i < failures_that_stop().len() && contains(lower(stderr), #[trigger] failures_that_stop()[i])
                ==> !encoder_retryable(stderr),
        (forall|i: int|
            0 <= i < failures_that_stop().len() ==> !contains(lower(stderr), #[trigger] failures_that_stop()[i]))
            && (exists|i: int|
            0 <= i < failures_of_one_encoder().len() && contains(
                lower(stderr),
                #[trigger] failures_of_one_encoder()[i],
            )) ==> encoder_retryable(stderr),
{
    assert(failures_that_stop() =~= terminal_markers());
    assert(failures_of_one_encoder() =~= retryable_markers());
}

fn mentions_any_exec(text: &str, markers: &Vec<&str>, ghost_markers: Ghost<Seq<Seq<char>>>) -> (r: bool)
    requires
        str_views(markers@) == ghost_markers@,
    ensures
        r == mentions_any(text@, ghost_markers@),
{
    let found = any_contained(text, markers);
    proof {
        if found {
            let i = choose|i: int| 0 <= i < markers@.len() && contains(text@, #[trigger] markers@[i]@);
            assert(ghost_markers@[i] == str_views(markers@)[i]);
        }
        if mentions_any(text@, ghost_markers@) {
            let i = choose|i: int| 0 <= i < ghost_markers@.len() && contains(text@, #[trigger] ghost_markers@[i]);
            assert(ghost_markers@[i] == str_views(markers@)[i]);
        }
    }
    found
}

/// Classifies an ffmpeg failure as a safe case for falling back to the next
/// encoder.
pub fn ffmpeg_failure_is_encoder_retryable(stderr: &str) -> (r: bool)
    ensures
        r == encoder_retryable(stderr@),
{
    let detail = lowered(stderr);
    let d = detail.as_str();
    let terminal = vec![
        "no space left",
        "permission denied",
        "read-only file system",
        "input/output error",
        "invalid data found when processing input",
        "moov atom not found",
        "error while decoding",
        "error opening output",
    ];
    assert(str_views(terminal@) =~= terminal_markers());
    if mentions_any_exec(d, &terminal, Ghost(terminal_markers())) {
        return false;
    }
    let retryable = vec![
        "no capable devices found",
        "no nvenc capable devices",
        "cannot load nvcuda",
        "device does not support",
        "codec not supported",
        "unsupported pixel format",
        "pixel format is not supported",
        "unsupported profile",
        "unsupported dimensions",
        "invalid frame dimensions",
        "error while opening encoder",
        "failed to open encoder",
        "encoder initialization failed",
        "initialize encoder failed",
        "impossible to convert between the formats",
        "error reinitializing filters",
        "operation not permitted",
        "generic error in an external library",
    ];
    assert(str_views(retryable@) =~= retryable_markers());
    if mentions_any_exec(d, &retryable, Ghost(retryable_markers())) {
        return true;
    }
    let all_lines = split_lines(d);
    let mut k: usize = 0;
    while k < all_lines.len()
        invariant
            k <= all_lines@.len(),
            d@ == lower(stderr@),
            !mentions_any(d@, terminal_markers()),
            !mentions_any(d@, retryable_markers()),
            all_lines@.len() == lines(d@).len(),
            forall|q: int| 0 <= q < all_lines@.len() ==> (#[trigger] all_lines@[q])@ == lines(d@)[q],
            forall|q: int|
                0 <= q < k ==> !(contains(#[trigger] lines(d@)[q], "error"@) || contains(
                    lines(d@)[q],
                    "failed"@,
                ) || contains(lines(d@)[q], "invalid"@)),
        decreases all_lines.len() - k,
    {
        let line = all_lines[k].as_str();
        if contains_str(line, "error") || contains_str(line, "failed") || contains_str(
            line,
            "invalid",
        ) {
            return false;
        }
        k = k + 1;
    }
    true
}

/// Whether a failed output validation is worth retrying with another
/// encoder: not when ffprobe itself could not run or the repair failed.
pub fn validation_failure_is_retryable(error: &str) -> (r: bool)
    ensures
        r == (!contains(error@, "failed to run ffprobe"@) && !contains(
            error@,
            "failed to inspect streams"@,
        ) && !contains(error@, "ffprobe failed"@) && !contains(
            error@,
            "metadata repair also failed"@,
        )),
{
    !contains_str(error, "failed to run ffprobe") && !contains_str(error, "failed to inspect streams")
        && !contains_str(error, "ffprobe failed") && !contains_str(
        error,
        "metadata repair also failed",
    )
}

/// Whether a validation failure may be fixed by a remux or a metadata repair
/// without encoding again: stream-count and colour or chroma failures.
pub fn validation_error_may_need_remux_repair(error: &str) -> (r: bool)
    ensures
        r == (contains(error@, "stream count"@) || contains(error@, "color "@) || contains(
            error@,
            "chroma "@,
        )),
{
    contains_str(error, "stream count") || contains_str(error, "color ") || contains_str(
        error,
        "chroma ",
    )
}

/// Whether a validation failure means a cached output cannot be reused.
pub fn validation_error_indicates_unusable_temp(error: &str) -> (r: bool)
    ensures
        r == (contains(error@, "has no readable video stream"@) || contains(
            error@,
            "output codec is"@,
        ) || contains(error@, "output duration is not valid"@)),
{
    contains_str(error, "has no readable video stream") || contains_str(error, "output codec is")
        || contains_str(error, "output duration is not valid")
}

} // verus!
