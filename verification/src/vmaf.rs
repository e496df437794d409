//! Measuring how close a converted file looks to its source.
//!
//! Quality is measured with Netflix's VMAF through FFmpeg's `libvmaf` filter,
//! which prints one summary line, `VMAF score: 95.123456`. Reading that
//! decimal into hundredths is floating-point work and is left to a converter
//! the caller supplies; finding the line and the number on it is done here.
use vstd::prelude::*;
use crate::encoders::{explaining_line, first_error_line};
use crate::text::{
    chars_of, collect_range, contains, contains_str, copy_str, eq_ignore_case,
    eq_ignore_case_str, find_at, find_str, is_digit, join2, lines, split_lines, starts_with,
    str_eq, trim, trimmed,
};

verus! {

/// A measured quality score, in hundredths of a VMAF point.
#[derive(Debug, Clone, Copy, PartialEq, Eq, Structural)]
pub struct VmafScore {
    /// The pooled score for the whole comparison, in hundredths.
    pub hundredths: u32,
    /// Frames compared out of every group, so a caller can say how thorough
    /// the measurement was.
    pub subsample: u32,
}

/// How one measurement should be run.
#[derive(Debug, Clone, Copy, PartialEq, Eq, Structural)]
pub struct VmafOptions {
    /// Compare one frame out of every `subsample`. One compares every frame.
    pub subsample: u32,
    /// Worker threads. Zero matches the machine, because the filter itself
    /// defaults to single-threaded, which is far too slow for whole files.
    pub threads: u32,
}

impl Default for VmafOptions {
    /// Sampled measurement on all cores.
    fn default() -> (r: Self)
        ensures
            r.subsample == 5,
            r.threads == 0,
    {
        VmafOptions { subsample: 5, threads: 0 }
    }
}

/// What a run learned about the FFmpeg build it is using.
#[derive(Debug, Clone, Copy, PartialEq, Eq, Structural)]
pub struct VmafSupport {
    pub available: bool,
}

/// Reads `ffmpeg -h filter=libvmaf` output: the build can measure quality
/// when the filter is described along with its `n_subsample` option. Returns
/// the support, and a reason to report when there is none.
pub fn vmaf_support_from_help(text: &str) -> (r: (VmafSupport, Option<String>))
    ensures
        r.0.available == (contains(text@, "libvmaf"@) && contains(text@, "n_subsample"@)),
        r.0.available ==> r.1 is None,
        !r.0.available ==> (r.1 matches Some(m) && m@
            == "this FFmpeg build has no libvmaf filter, so quality cannot be measured"@),
{
    if contains_str(text, "libvmaf") && contains_str(text, "n_subsample") {
        (VmafSupport { available: true }, None)
    } else {
        (
            VmafSupport { available: false },
            Some(copy_str("this FFmpeg build has no libvmaf filter, so quality cannot be measured")),
        )
    }
}

/// Reads `ffmpeg -h filter=libvmaf_cuda` output: whether the build can score
/// on the graphics card.
pub fn vmaf_cuda_support_from_help(text: &str) -> (r: bool)
    ensures
        r == (contains(text@, "libvmaf_cuda"@) && contains(text@, "n_subsample"@)),
{
    contains_str(text, "libvmaf_cuda") && contains_str(text, "n_subsample")
}

/// The VMAF model for a source of this size. Netflix ships a separate model
/// trained for 4K viewing distances; above 1440p the 1080p model reads high.
pub fn model_for(width: u32, height: u32) -> (r: &'static str)
    ensures
        r@ == (if (if width >= height { width } else { height }) > 2560 || height > 1440 {
            "vmaf_4k_v0.6.1"@
        } else {
            "vmaf_v0.6.1"@
        }),
{
    let longest = if width >= height {
        width
    } else {
        height
    };
    if longest > 2560 || height > 1440 {
        "vmaf_4k_v0.6.1"
    } else {
        "vmaf_v0.6.1"
    }
}

/// The pixel format both inputs are converted to before comparing: libvmaf
/// accepts only planar YUV, so RGB and semi-planar formats become the planar
/// format of the same chroma layout, and any depth above 8 bits becomes 10.
pub open spec fn comparison_format(pix_fmt: Option<Seq<char>>) -> Seq<char> {
    let source = match pix_fmt {
        Some(f) => crate::metadata::normalized_pix_fmt_spec(f),
        None => "yuv420p"@,
    };
    let depth: int = match crate::metadata::bit_depth(source) {
        Some(d) => d as int,
        None => 8,
    };
    let family = if starts_with(source, "yuv444"@) || starts_with(source, "gbr"@) || contains(
        source,
        "rgb"@,
    ) {
        "yuv444p"@
    } else if starts_with(source, "yuv422"@) {
        "yuv422p"@
    } else {
        "yuv420p"@
    };
    if depth > 8 {
        if family == "yuv444p"@ {
            "yuv444p10le"@
        } else if family == "yuv422p"@ {
            "yuv422p10le"@
        } else {
            "yuv420p10le"@
        }
    } else {
        family
    }
}

/// Chooses a pixel format both comparison inputs can be converted to.
pub fn comparison_pixel_format(pix_fmt: Option<&str>) -> (r: &'static str)
    ensures
        r@ == comparison_format(
            match pix_fmt {
                Some(f) => Some(f@),
                None => None,
            },
        ),
{
    let source = match pix_fmt {
        Some(f) => crate::metadata::normalized_pix_fmt(f),
        None => copy_str("yuv420p"),
    };
    let s = source.as_str();
    let depth: u8 = match crate::metadata::pixel_format_bit_depth(s) {
        Some(d) => d,
        None => 8,
    };
    let family = if crate::text::starts_with_str(s, "yuv444") || crate::text::starts_with_str(s, "gbr")
        || contains_str(s, "rgb") {
        "yuv444p"
    } else if crate::text::starts_with_str(s, "yuv422") {
        "yuv422p"
    } else {
        "yuv420p"
    };
    proof {
        reveal_strlit("yuv444p");
        reveal_strlit("yuv422p");
        reveal_strlit("yuv420p");
        assert("yuv444p"@[4] != "yuv422p"@[4]);
        assert("yuv444p"@[4] != "yuv420p"@[4]);
        assert("yuv422p"@[5] != "yuv420p"@[5]);
    }
    if depth > 8 {
        if str_eq(family, "yuv444p") {
            "yuv444p10le"
        } else if str_eq(family, "yuv422p") {
            "yuv422p10le"
        } else {
            "yuv420p10le"
        }
    } else {
        family
    }
}

/// Whether a source can be compared on the graphics card at all: only 8-bit
/// 4:2:0, which is all the CUDA filter accepts.
pub fn can_score_on_gpu(pix_fmt: Option<&str>) -> (r: bool)
    ensures
        r == (comparison_format(
            match pix_fmt {
                Some(f) => Some(f@),
                None => None,
            },
        ) == "yuv420p"@),
{
    str_eq(comparison_pixel_format(pix_fmt), "yuv420p")
}

/// A caveat for sources VMAF cannot judge reliably: the public models were
/// trained on standard-range video, so an HDR score is indicative only.
pub fn accuracy_caveat(color_transfer: Option<&str>) -> (r: Option<&'static str>)
    ensures
        match color_transfer {
            Some(t) if eq_ignore_case(t@, "smpte2084"@) || eq_ignore_case(t@, "arib-std-b67"@) => (r matches Some(m)
                && m@ == "this video is HDR, so the quality score is indicative only"@),
            _ => r is None,
        },
{
    match color_transfer {
        Some(t) => {
            if eq_ignore_case_str(t, "smpte2084") || eq_ignore_case_str(t, "arib-std-b67") {
                Some("this video is HDR, so the quality score is indicative only")
            } else {
                None
            }
        },
        None => None,
    }
}

/// Whether `f` turns a decimal score into hundredths the same way for the
/// same characters.
pub open spec fn converts_scores<F: Fn(String) -> Option<u32>>(f: F) -> bool {
    &&& forall|a: String| #[trigger] f.requires((a,))
    &&& forall|a: String, b: String, x: Option<u32>, y: Option<u32>|
        #[trigger] f.ensures((a,), x) && #[trigger] f.ensures((b,), y) && a@ == b@ ==> x == y
}

pub open spec fn yields<F: Fn(String) -> Option<u32>>(f: F, v: Seq<char>, r: Option<u32>) -> bool {
    exists|a: String| a@ == v && #[trigger] f.ensures((a,), r)
}

/// The hundredths `f` reads from the characters `v`.
pub open spec fn score_of<F: Fn(String) -> Option<u32>>(f: F, v: Seq<char>) -> Option<u32> {
    choose|r: Option<u32>| #[trigger] yields(f, v, r)
}

proof fn lemma_score_of<F: Fn(String) -> Option<u32>>(f: F, a: String, x: Option<u32>)
    requires
        converts_scores(f),
        f.ensures((a,), x),
    ensures
        score_of(f, a@) == x,
{
    assert(yields(f, a@, x));
    let r = choose|r: Option<u32>| #[trigger] yields(f, a@, r);
    assert(yields(f, a@, r));
    let b = choose|b: String| b@ == a@ && #[trigger] f.ensures((b,), r);
    assert(f.ensures((b,), r));
}

/// Where the run of digits and dots that starts at `s[i]` ends.
pub open spec fn number_end(s: Seq<char>, i: int) -> int
    decreases s.len() - i,
{
    if i < 0 || i >= s.len() || !(is_digit(s[i]) || s[i] == '.') {
        i
    } else {
        number_end(s, i + 1)
    }
}

/// The number a line reports after `VMAF score:`: the digits and dots that
/// follow it, once surrounding space is trimmed; none for a line without the
/// marker.
pub open spec fn score_token(line: Seq<char>) -> Option<Seq<char>> {
    match find_at(line, "VMAF score:"@, 0) {
        None => None,
        Some(p) => {
            let rest = trim(line.subrange(p + "VMAF score:"@.len(), line.len() as int));
            Some(rest.subrange(0, number_end(rest, 0)))
        },
    }
}

/// The score of the last line of `ls` that carries one `f` can read.
pub open spec fn last_score<F: Fn(String) -> Option<u32>>(ls: Seq<Seq<char>>, f: F) -> Option<u32>
    decreases ls.len(),
{
    if ls.len() == 0 {
        None
    } else {
        match score_token(ls.last()) {
            Some(t) => match score_of(f, t) {
                Some(v) => Some(v),
                None => last_score(ls.drop_last(), f),
            },
            None => last_score(ls.drop_last(), f),
        }
    }
}

proof fn lemma_number_end(s: Seq<char>, i: int, j: int)
    requires
        0 <= i <= j <= s.len(),
        forall|k: int| i <= k < j ==> is_digit(s[k]) || s[k] == '.',
        j == s.len() || !(is_digit(s[j]) || s[j] == '.'),
    ensures
        number_end(s, i) == j,
    decreases j - i,
{
    if i < j {
        lemma_number_end(s, i + 1, j);
    }
}

fn score_token_of(line: &str) -> (r: Option<String>)
    ensures
        match r {
            Some(t) => score_token(line@) == Some(t@),
            None => score_token(line@) is None,
        },
{
    let marker = "VMAF score:";
    let position = match find_str(line, marker) {
        Some(p) => p,
        None => {
            return None;
        },
    };
    proof {
        crate::text::lemma_find_at_some(line@, marker@, 0);
    }
    let v = chars_of(line);
    let marker_len = marker.unicode_len();
    assert(position + marker_len <= v.len());
    let from = position + marker_len;
    let tail = collect_range(&v, from, v.len());
    let rest = trimmed(tail.as_str());
    let rv = chars_of(rest.as_str());
    let mut end: usize = 0;
    while end < rv.len() && (crate::text::char_is_digit(rv[end]) || rv[end] == '.')
        invariant
            end <= rv.len(),
            forall|k: int| 0 <= k < end ==> is_digit(rv@[k]) || rv@[k] == '.',
        decreases rv.len() - end,
    {
        end = end + 1;
    }
    proof {
        lemma_number_end(rv@, 0, end as int);
    }
    Some(collect_range(&rv, 0, end))
}

/// Reads the pooled score out of ffmpeg output, in hundredths: the last
/// `VMAF score:` line whose number `to_hundredths` can read, so a retry
/// inside the same output cannot be misread. `to_hundredths` reads a decimal
/// such as `95.123456` and gives none for text that is not a number from 0
/// to 100.
pub fn parse_vmaf_score<F: Fn(String) -> Option<u32>>(text: &str, to_hundredths: F) -> (r: Option<u32>)
    requires
        converts_scores(to_hundredths),
    ensures
        r == last_score(lines(text@), to_hundredths),
{
    let all_lines = split_lines(text);
    let ghost ls = lines(text@);
    let mut found: Option<u32> = None;
    let mut i: usize = 0;
    assert(ls.subrange(0, 0) =~= Seq::<Seq<char>>::empty());
    while i < all_lines.len()
        invariant
            all_lines@.len() == ls.len(),
            ls == lines(text@),
            forall|q: int| 0 <= q < all_lines@.len() ==> (#[trigger] all_lines@[q])@ == ls[q],
            i <= all_lines.len(),
            converts_scores(to_hundredths),
            found == last_score(ls.subrange(0, i as int), to_hundredths),
        decreases all_lines.len() - i,
    {
        let ghost prev = ls.subrange(0, i as int);
        let ghost next = ls.subrange(0, i + 1);
        assert(next.drop_last() =~= prev);
        assert(next.last() == all_lines@[i as int]@);
        match score_token_of(all_lines[i].as_str()) {
            Some(token) => {
                let ghost tv = token;
                let value = to_hundredths(token);
                proof {
                    lemma_score_of(to_hundredths, tv, value);
                }
                match value {
                    Some(v) => {
                        found = Some(v);
                    },
                    None => {},
                }
            },
            None => {},
        }
        i = i + 1;
    }
    assert(ls.subrange(0, ls.len() as int) =~= ls);
    found
}

/// Turns finished ffmpeg output into a score. A failed run reports the line
/// that explains it; a run that printed no readable score reports that.
pub fn score_from_output<F: Fn(String) -> Option<u32>>(
    succeeded: bool,
    text: &str,
    subsample: u32,
    to_hundredths: F,
) -> (r: Result<VmafScore, String>)
    requires
        converts_scores(to_hundredths),
    ensures
        !succeeded ==> (r matches Err(e) && e@ == "quality measurement failed: "@ + explaining_line(
            text@,
        )),
        succeeded ==> match last_score(lines(text@), to_hundredths) {
            Some(h) => r == Ok::<VmafScore, String>(
                VmafScore { hundredths: h, subsample: if subsample >= 1 { subsample } else { 1 } },
            ),
            None => r matches Err(e) && e@ == "quality measurement produced no score"@,
        },
{
    if !succeeded {
        let line = first_error_line(text);
        return Err(join2("quality measurement failed: ", line.as_str()));
    }
    match parse_vmaf_score(text, to_hundredths) {
        Some(hundredths) => Ok(
            VmafScore { hundredths, subsample: if subsample >= 1 { subsample } else { 1 } },
        ),
        None => Err(copy_str("quality measurement produced no score")),
    }
}

} // verus!
