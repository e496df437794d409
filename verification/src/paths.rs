//! Names of the files a conversion creates next to its source.
//!
//! Paths are held as strings. Taking one apart and putting it back together
//! is left to `std::path`, whose rules for separators, roots and dots are not
//! restated here: each of those operations is named, and the names of this
//! tool's own files are built from them. Those rules are the ones of the
//! platform the library is built for (a backslash separates components on
//! Windows only), so each name stands for one platform's rules, fixed for a
//! given build; within a build the result depends on the characters alone.
use vstd::prelude::*;
use crate::streams::OutputContainer;
use crate::text::{contains, contains_str, decimal, decimal_string, ends_with, ends_with_str, join2, join3, starts_with, starts_with_str};

verus! {

/// The final component of a path, as `Path::file_name` gives it.
pub uninterp spec fn path_file_name(p: Seq<char>) -> Option<Seq<char>>;

/// The file name without its final extension, as `Path::file_stem` gives it.
pub uninterp spec fn path_file_stem(p: Seq<char>) -> Option<Seq<char>>;

/// The final extension of the file name, as `Path::extension` gives it.
pub uninterp spec fn path_extension(p: Seq<char>) -> Option<Seq<char>>;

/// The path without its final component, as `Path::parent` gives it.
pub uninterp spec fn path_parent(p: Seq<char>) -> Option<Seq<char>>;

/// `Path::join`: a name placed inside a directory.
pub uninterp spec fn path_join(dir: Seq<char>, name: Seq<char>) -> Seq<char>;

/// `Path::with_file_name`: the same directory, another file name.
pub uninterp spec fn path_with_file_name(p: Seq<char>, name: Seq<char>) -> Seq<char>;

/// `Path::with_extension`: the same file with another extension.
pub uninterp spec fn path_with_extension(p: Seq<char>, ext: Seq<char>) -> Seq<char>;

/// `Path::file_name` on a path given as a string. The result is a function
/// of the path's characters alone; what std makes of separators and dots is
/// not restated.
#[verifier::external_body]
pub(crate) fn file_name_of(path: &str) -> (r: Option<String>)
    ensures
        match r {
            Some(n) => path_file_name(path@) == Some(n@),
            None => path_file_name(path@) is None,
        },
{
    std::path::Path::new(path).file_name().and_then(|v| v.to_str()).map(|v| v.to_string())
}

/// `Path::file_stem` on a path given as a string; a function of the path's
/// characters alone.
#[verifier::external_body]
pub(crate) fn file_stem_of(path: &str) -> (r: Option<String>)
    ensures
        match r {
            Some(n) => path_file_stem(path@) == Some(n@),
            None => path_file_stem(path@) is None,
        },
{
    std::path::Path::new(path).file_stem().and_then(|v| v.to_str()).map(|v| v.to_string())
}

/// `Path::extension` on a path given as a string; a function of the path's
/// characters alone.
#[verifier::external_body]
pub(crate) fn extension_of(path: &str) -> (r: Option<String>)
    ensures
        match r {
            Some(n) => path_extension(path@) == Some(n@),
            None => path_extension(path@) is None,
        },
{
    std::path::Path::new(path).extension().and_then(|v| v.to_str()).map(|v| v.to_string())
}

/// `Path::parent` on a path given as a string; a function of the path's
/// characters alone.
#[verifier::external_body]
pub(crate) fn parent_of(path: &str) -> (r: Option<String>)
    ensures
        match r {
            Some(n) => path_parent(path@) == Some(n@),
            None => path_parent(path@) is None,
        },
{
    std::path::Path::new(path).parent().and_then(|v| v.to_str()).map(|v| v.to_string())
}

/// `Path::join` on paths given as strings; a function of both arguments'
/// characters alone.
#[verifier::external_body]
pub(crate) fn join_path(dir: &str, name: &str) -> (r: String)
    ensures
        r@ == path_join(dir@, name@),
{
    std::path::Path::new(dir).join(name).to_string_lossy().into_owned()
}

/// `Path::with_file_name` on paths given as strings; a function of both
/// arguments' characters alone.
#[verifier::external_body]
pub(crate) fn with_file_name_of(path: &str, name: &str) -> (r: String)
    ensures
        r@ == path_with_file_name(path@, name@),
{
    std::path::Path::new(path).with_file_name(name).to_string_lossy().into_owned()
}

/// Whether a string holds no path separator, on any platform.
pub open spec fn no_separator(s: Seq<char>) -> bool {
    forall|i: int| 0 <= i < s.len() ==> #[trigger] s[i] != '/' && s[i] != '\\'
}

/// `Path::with_extension` on paths given as strings; a function of both
/// arguments' characters alone. std panics on an extension that holds a path
/// separator, so such an extension is not admitted.
#[verifier::external_body]
pub(crate) fn with_extension_of(path: &str, ext: &str) -> (r: String)
    requires
        no_separator(ext@),
    ensures
        r@ == path_with_extension(path@, ext@),
{
    std::path::Path::new(path).with_extension(ext).to_string_lossy().into_owned()
}

pub open spec fn or_default(o: Option<Seq<char>>, d: Seq<char>) -> Seq<char> {
    match o {
        Some(v) => v,
        None => d,
    }
}

/// `name` placed in the directory of `p`, or on its own when `p` has none.
pub open spec fn beside(p: Seq<char>, name: Seq<char>) -> Seq<char> {
    match path_parent(p) {
        Some(dir) => path_join(dir, name),
        None => name,
    }
}

fn beside_exec(path: &str, name: &str) -> (r: String)
    ensures
        r@ == beside(path@, name@),
{
    match parent_of(path) {
        Some(dir) => join_path(dir.as_str(), name),
        None => crate::text::copy_str(name),
    }
}

/// The same file with `suffix` added to its name: `clip.mp4` becomes
/// `clip.mp4.old`. A path without a file name gets one called `file`.
pub open spec fn added_suffix(p: Seq<char>, suffix: Seq<char>) -> Seq<char> {
    path_with_file_name(p, or_default(path_file_name(p), "file"@) + suffix)
}

/// Appends a suffix to a path's file name.
pub fn with_added_suffix(path: &str, suffix: &str) -> (r: String)
    ensures
        r@ == added_suffix(path@, suffix@),
{
    let name = match file_name_of(path) {
        Some(n) => n,
        None => crate::text::copy_str("file"),
    };
    let full = join2(name.as_str(), suffix);
    with_file_name_of(path, full.as_str())
}

/// Whether a path's file name ends with `suffix`.
pub fn has_added_suffix(path: &str, suffix: &str) -> (r: bool)
    ensures
        r == (match path_file_name(path@) {
            Some(n) => ends_with(n, suffix@),
            None => false,
        }),
{
    match file_name_of(path) {
        Some(n) => ends_with_str(n.as_str(), suffix),
        None => false,
    }
}

/// Where an AV1 metadata repair writes its output, next to the file it
/// repairs.
pub fn metadata_repair_temp_path(path: &str) -> (r: String)
    ensures
        r@ == added_suffix(path@, ".repairing.mp4"@),
{
    with_added_suffix(path, ".repairing.mp4")
}

/// Where the unrepaired file is kept while a repair is put in place.
pub fn metadata_backup_temp_path(path: &str) -> (r: String)
    ensures
        r@ == added_suffix(path@, ".before-repair.mp4"@),
{
    with_added_suffix(path, ".before-repair.mp4")
}

/// Prefix for temporary conversion outputs created by this build.
pub open spec fn temp_prefix() -> Seq<char> {
    ".myvidcomp-"@
}

/// Prefix an earlier name of this project used for its temporary outputs,
/// still recognised so interrupted work can be cleaned up.
pub open spec fn legacy_temp_prefix() -> Seq<char> {
    ".pvac-"@
}

/// Whether a path names a temporary conversion output of this tool.
pub fn is_temp_output_path(path: &str) -> (r: bool)
    ensures
        r == (match path_file_name(path@) {
            Some(n) => (starts_with(n, temp_prefix()) || starts_with(n, legacy_temp_prefix())) && (
            ends_with(n, ".tmp.mp4"@) || ends_with(n, ".tmp.mkv"@)),
            None => false,
        }),
{
    match file_name_of(path) {
        Some(n) => {
            let name = n.as_str();
            (starts_with_str(name, ".myvidcomp-") || starts_with_str(name, ".pvac-")) && (
            ends_with_str(name, ".tmp.mp4") || ends_with_str(name, ".tmp.mkv"))
        },
        None => false,
    }
}

/// Whether a file extension is one of the video containers the tool looks
/// at, in any case.
pub open spec fn video_extension(e: Seq<char>) -> bool {
    let k = crate::text::lower(e);
    k == "3g2"@ || k == "3gp"@ || k == "asf"@ || k == "avi"@ || k == "divx"@ || k == "dv"@ || k
        == "f4v"@ || k == "flv"@ || k == "m2ts"@ || k == "m4v"@ || k == "mkv"@ || k == "mov"@ || k
        == "mp4"@ || k == "mpeg"@ || k == "mpg"@ || k == "mts"@ || k == "mxf"@ || k == "ogm"@ || k
        == "ogv"@ || k == "rm"@ || k == "rmvb"@ || k == "ts"@ || k == "vob"@ || k == "webm"@ || k
        == "wmv"@
}

/// The video containers a run looks at, by extension in lower case.
pub open spec fn video_containers() -> Seq<Seq<char>> {
    seq!["3g2"@, "3gp"@, "asf"@, "avi"@, "divx"@, "dv"@, "f4v"@, "flv"@, "m2ts"@, "m4v"@, "mkv"@, "mov"@, "mp4"@, "mpeg"@, "mpg"@, "mts"@, "mxf"@, "ogm"@, "ogv"@, "rm"@, "rmvb"@, "ts"@, "vob"@, "webm"@, "wmv"@]
}

proof fn lemma_lower_unchanged(s: Seq<char>)
    requires
        forall|i: int| 0 <= i < s.len() ==> !('A' <= #[trigger] s[i] && s[i] <= 'Z'),
    ensures
        crate::text::lower(s) == s,
{
    assert(crate::text::lower(s) =~= s);
}

proof fn lemma_lower_char_twice(c: char)
    ensures
        crate::text::lower_char(crate::text::lower_char(c)) == crate::text::lower_char(c),
{
    if 'A' <= c && c <= 'Z' {
        let d = crate::text::lower_char(c);
        assert(d == ((c as u32) + 32) as char);
        assert((d as u32) == (c as u32) + 32);
        assert(!('A' <= d && d <= 'Z'));
    }
}

/// Lower case is lower case already.
pub proof fn lower_twice(e: Seq<char>)
    ensures
        crate::text::lower(crate::text::lower(e)) == crate::text::lower(e),
{
    assert forall|i: int| 0 <= i < e.len() implies crate::text::lower(crate::text::lower(e))[i]
        == crate::text::lower(e)[i] by {
        lemma_lower_char_twice(e[i]);
    }
    assert(crate::text::lower(crate::text::lower(e)) =~= crate::text::lower(e));
}

/// A file is a candidate exactly when its extension, in lower case, is one
/// of 3g2, 3gp, asf, avi, divx, dv, f4v, flv, m2ts, m4v, mkv, mov, mp4, mpeg, mpg, mts, mxf, ogm, ogv, rm, rmvb, ts, vob, webm, wmv; the case of the extension never matters, and each
/// of these names is itself accepted.
pub proof fn candidate_extensions_are(e: Seq<char>)
    ensures
        video_extension(e) == video_containers().contains(crate::text::lower(e)),
        video_extension(e) == video_extension(crate::text::lower(e)),
        forall|i: int| 0 <= i < video_containers().len() ==> video_extension(#[trigger] video_containers()[i]),
{
    reveal_strlit("3g2");
    reveal_strlit("3gp");
    reveal_strlit("asf");
    reveal_strlit("avi");
    reveal_strlit("divx");
    reveal_strlit("dv");
    reveal_strlit("f4v");
    reveal_strlit("flv");
    reveal_strlit("m2ts");
    reveal_strlit("m4v");
    reveal_strlit("mkv");
    reveal_strlit("mov");
    reveal_strlit("mp4");
    reveal_strlit("mpeg");
    reveal_strlit("mpg");
    reveal_strlit("mts");
    reveal_strlit("mxf");
    reveal_strlit("ogm");
    reveal_strlit("ogv");
    reveal_strlit("rm");
    reveal_strlit("rmvb");
    reveal_strlit("ts");
    reveal_strlit("vob");
    reveal_strlit("webm");
    reveal_strlit("wmv");
    let v = video_containers();
    let k = crate::text::lower(e);
    if k == "3g2"@ || k == "3gp"@ || k == "asf"@ || k == "avi"@ || k == "divx"@ || k == "dv"@ || k == "f4v"@ || k == "flv"@ || k == "m2ts"@ || k == "m4v"@ || k == "mkv"@ || k == "mp4"@ || k == "mov"@ || k == "mpeg"@ || k == "mpg"@ || k == "mts"@ || k == "mxf"@ || k == "ogm"@ || k == "ogv"@ || k == "rm"@ || k == "rmvb"@ || k == "ts"@ || k == "vob"@ || k == "webm"@ || k == "wmv"@ {
        if k == "3g2"@ { assert(v[0] == k); }
        if k == "3gp"@ { assert(v[1] == k); }
        if k == "asf"@ { assert(v[2] == k); }
        if k == "avi"@ { assert(v[3] == k); }
        if k == "divx"@ { assert(v[4] == k); }
        if k == "dv"@ { assert(v[5] == k); }
        if k == "f4v"@ { assert(v[6] == k); }
        if k == "flv"@ { assert(v[7] == k); }
        if k == "m2ts"@ { assert(v[8] == k); }
        if k == "m4v"@ { assert(v[9] == k); }
        if k == "mkv"@ { assert(v[10] == k); }
        if k == "mov"@ { assert(v[11] == k); }
        if k == "mp4"@ { assert(v[12] == k); }
        if k == "mpeg"@ { assert(v[13] == k); }
        if k == "mpg"@ { assert(v[14] == k); }
        if k == "mts"@ { assert(v[15] == k); }
        if k == "mxf"@ { assert(v[16] == k); }
        if k == "ogm"@ { assert(v[17] == k); }
        if k == "ogv"@ { assert(v[18] == k); }
        if k == "rm"@ { assert(v[19] == k); }
        if k == "rmvb"@ { assert(v[20] == k); }
        if k == "ts"@ { assert(v[21] == k); }
        if k == "vob"@ { assert(v[22] == k); }
        if k == "webm"@ { assert(v[23] == k); }
        if k == "wmv"@ { assert(v[24] == k); }
    }
    if v.contains(k) {
        let j = choose|j: int| 0 <= j < v.len() && v[j] == k;
        if j == 0 {} else if j == 1 {} else if j == 2 {} else if j == 3 {} else if j == 4 {} else if j == 5 {} else if j == 6 {} else if j == 7 {} else if j == 8 {} else if j == 9 {} else if j == 10 {} else if j == 11 {} else if j == 12 {} else if j == 13 {} else if j == 14 {} else if j == 15 {} else if j == 16 {} else if j == 17 {} else if j == 18 {} else if j == 19 {} else if j == 20 {} else if j == 21 {} else if j == 22 {} else if j == 23 {} else {}
    }
    lower_twice(e);
    lemma_lower_unchanged("3g2"@);
    lemma_lower_unchanged("3gp"@);
    lemma_lower_unchanged("asf"@);
    lemma_lower_unchanged("avi"@);
    lemma_lower_unchanged("divx"@);
    lemma_lower_unchanged("dv"@);
    lemma_lower_unchanged("f4v"@);
    lemma_lower_unchanged("flv"@);
    lemma_lower_unchanged("m2ts"@);
    lemma_lower_unchanged("m4v"@);
    lemma_lower_unchanged("mkv"@);
    lemma_lower_unchanged("mov"@);
    lemma_lower_unchanged("mp4"@);
    lemma_lower_unchanged("mpeg"@);
    lemma_lower_unchanged("mpg"@);
    lemma_lower_unchanged("mts"@);
    lemma_lower_unchanged("mxf"@);
    lemma_lower_unchanged("ogm"@);
    lemma_lower_unchanged("ogv"@);
    lemma_lower_unchanged("rm"@);
    lemma_lower_unchanged("rmvb"@);
    lemma_lower_unchanged("ts"@);
    lemma_lower_unchanged("vob"@);
    lemma_lower_unchanged("webm"@);
    lemma_lower_unchanged("wmv"@);
    assert forall|i: int| 0 <= i < v.len() implies video_extension(#[trigger] v[i]) by {
        assert(crate::text::lower(v[i]) == v[i]);
    }
}

/// Checks whether a file extension names a video container.
pub fn is_candidate_video_extension(extension: &str) -> (r: bool)
    ensures
        r == video_extension(extension@),
{
    let key = crate::text::lowered(extension);
    let k = key.as_str();
    crate::text::str_eq(k, "3g2") || crate::text::str_eq(k, "3gp") || crate::text::str_eq(k, "asf")
        || crate::text::str_eq(k, "avi") || crate::text::str_eq(k, "divx") || crate::text::str_eq(
        k,
        "dv",
    ) || crate::text::str_eq(k, "f4v") || crate::text::str_eq(k, "flv") || crate::text::str_eq(
        k,
        "m2ts",
    ) || crate::text::str_eq(k, "m4v") || crate::text::str_eq(k, "mkv") || crate::text::str_eq(
        k,
        "mov",
    ) || crate::text::str_eq(k, "mp4") || crate::text::str_eq(k, "mpeg") || crate::text::str_eq(
        k,
        "mpg",
    ) || crate::text::str_eq(k, "mts") || crate::text::str_eq(k, "mxf") || crate::text::str_eq(
        k,
        "ogm",
    ) || crate::text::str_eq(k, "ogv") || crate::text::str_eq(k, "rm") || crate::text::str_eq(
        k,
        "rmvb",
    ) || crate::text::str_eq(k, "ts") || crate::text::str_eq(k, "vob") || crate::text::str_eq(
        k,
        "webm",
    ) || crate::text::str_eq(k, "wmv")
}

/// Whether a path's extension names a video container.
pub fn is_candidate_video_path(path: &str) -> (r: bool)
    ensures
        r == (match path_extension(path@) {
            Some(e) => video_extension(e),
            None => false,
        }),
{
    match extension_of(path) {
        Some(e) => is_candidate_video_extension(e.as_str()),
        None => false,
    }
}

/// A file a run will consider converting.
#[derive(Debug, Clone, PartialEq, Eq)]
pub struct CandidateItem {
    pub input_path: String,
}

impl CandidateItem {
    pub fn new(input_path: String) -> (r: Self)
        ensures
            r.input_path@ == input_path@,
    {
        CandidateItem { input_path }
    }

    /// Where the converted file goes: the same name with an `.mp4`
    /// extension.
    pub fn output_path(&self) -> (r: String)
        ensures
            r@ == path_with_extension(self.input_path@, "mp4"@),
    {
        proof {
            reveal_strlit("mp4");
        }
        with_extension_of(self.input_path.as_str(), "mp4")
    }
}

/// Suffix appended to a converted file that is waiting for the user to review it.
pub open spec fn review_suffix() -> Seq<char> {
    ".myvidcomp-review"@
}

/// The pending-review name of a converted file: `clip.mp4` becomes
/// `clip.myvidcomp-review.mp4`, in the same directory.
pub open spec fn review_path_for(output: Seq<char>) -> Seq<char> {
    beside(
        output,
        or_default(path_file_stem(output), "video"@) + review_suffix() + "."@ + or_default(
            path_extension(output),
            "mp4"@,
        ),
    )
}

/// Builds the pending-review output path for a converted file.
pub fn review_output_path(output_path: &str) -> (r: String)
    ensures
        r@ == review_path_for(output_path@),
{
    let stem = match file_stem_of(output_path) {
        Some(s) => s,
        None => crate::text::copy_str("video"),
    };
    let ext = match extension_of(output_path) {
        Some(e) => e,
        None => crate::text::copy_str("mp4"),
    };
    let mut name = join3(stem.as_str(), ".myvidcomp-review", ".");
    name.append(ext.as_str());
    beside_exec(output_path, name.as_str())
}

/// Builds the sidecar path for a pending review file: its name with `.json`
/// added.
pub fn review_sidecar_path(review_path: &str) -> (r: String)
    ensures
        r@ == added_suffix(review_path@, ".json"@),
{
    with_added_suffix(review_path, ".json")
}

/// Whether a file name marks a pending review output or its sidecar.
pub fn is_review_artifact(path: &str) -> (r: bool)
    ensures
        r == (match path_file_name(path@) {
            Some(n) => contains(n, review_suffix()),
            None => false,
        }),
{
    match file_name_of(path) {
        Some(n) => contains_str(n.as_str(), ".myvidcomp-review"),
        None => false,
    }
}

/// The name a converted file takes when the user keeps both copies:
/// `clip.mp4` becomes `clip.myvidcomp.mp4`, which no longer looks pending.
pub open spec fn kept_both_for(final_path: Seq<char>) -> Seq<char> {
    beside(
        final_path,
        or_default(path_file_stem(final_path), "video"@) + ".myvidcomp."@ + or_default(
            path_extension(final_path),
            "mp4"@,
        ),
    )
}

/// Builds the name a converted file takes when both copies are kept.
pub fn kept_both_path(final_path: &str) -> (r: String)
    ensures
        r@ == kept_both_for(final_path@),
{
    let stem = match file_stem_of(final_path) {
        Some(s) => s,
        None => crate::text::copy_str("video"),
    };
    let ext = match extension_of(final_path) {
        Some(e) => e,
        None => crate::text::copy_str("mp4"),
    };
    let name = join3(stem.as_str(), ".myvidcomp.", ext.as_str());
    beside_exec(final_path, name.as_str())
}

/// Where a converted file goes: the source's name with the container's
/// extension.
pub fn container_output_path(input_path: &str, container: OutputContainer) -> (r: String)
    ensures
        r@ == path_with_extension(
            input_path@,
            match container {
                OutputContainer::Mp4 => "mp4"@,
                OutputContainer::Mkv => "mkv"@,
            },
        ),
{
    let ext = container.extension();
    proof {
        reveal_strlit("mp4");
        reveal_strlit("mkv");
    }
    with_extension_of(input_path, ext)
}

/// The name of the temporary file one attempt writes:
/// `.myvidcomp-<stem>-<stamp>.tmp.<ext>`, where the stamp keeps two runs
/// apart.
pub open spec fn temp_name(input_path: Seq<char>, stamp: u64, container: OutputContainer) -> Seq<
    char,
> {
    temp_prefix() + or_default(path_file_stem(input_path), "video"@) + "-"@ + decimal(stamp as nat)
        + ".tmp."@ + match container {
        OutputContainer::Mp4 => "mp4"@,
        OutputContainer::Mkv => "mkv"@,
    }
}

/// Where the temporary file goes: in the temporary folder when the run has
/// one, else beside the source.
pub open spec fn temp_path_for(
    input_path: Seq<char>,
    tmp_dir: Option<Seq<char>>,
    stamp: u64,
    container: OutputContainer,
) -> Seq<char> {
    match tmp_dir {
        Some(dir) => path_join(dir, temp_name(input_path, stamp, container)),
        None => path_with_file_name(input_path, temp_name(input_path, stamp, container)),
    }
}

/// Builds the temporary output path; see `temp_path_for`.
pub fn temp_output_path(input_path: &str, tmp_dir: Option<&str>, stamp: u64, container: OutputContainer) -> (r: String)
    ensures
        r@ == temp_path_for(
            input_path@,
            match tmp_dir {
                Some(d) => Some(d@),
                None => None,
            },
            stamp,
            container,
        ),
{
    let stem = match file_stem_of(input_path) {
        Some(s) => s,
        None => crate::text::copy_str("video"),
    };
    let mut name = join3(".myvidcomp-", stem.as_str(), "-");
    let digits = decimal_string(stamp);
    name.append(digits.as_str());
    name.append(".tmp.");
    name.append(container.extension());
    match tmp_dir {
        Some(dir) => join_path(dir, name.as_str()),
        None => with_file_name_of(input_path, name.as_str()),
    }
}

/// Whether a file named `entry_name`, in the same directory as `input`, is
/// a pending review of `input`: its name starts with the source's stem and
/// the review suffix, and it is not the sidecar.
pub open spec fn pending_review_of(input: Seq<char>, entry_name: Seq<char>) -> bool {
    match path_file_stem(input) {
        Some(stem) => starts_with(entry_name, stem + review_suffix() + "."@) && !ends_with(
            entry_name,
            ".json"@,
        ),
        None => false,
    }
}

/// Decides whether one directory entry is a pending review of a source;
/// see `pending_review_of`.
pub fn is_pending_review_of(input: &str, entry_name: &str) -> (r: bool)
    ensures
        r == pending_review_of(input@, entry_name@),
{
    match file_stem_of(input) {
        Some(stem) => {
            let prefix = join3(stem.as_str(), ".myvidcomp-review", ".");
            starts_with_str(entry_name, prefix.as_str()) && !ends_with_str(entry_name, ".json")
        },
        None => false,
    }
}

/// Whether a file name is the sidecar of a pending review.
pub open spec fn review_sidecar_name(name: Seq<char>) -> bool {
    contains(name, review_suffix()) && ends_with(name, ".json"@)
}

/// Decides whether a file is a pending review's sidecar; see
/// `review_sidecar_name`.
pub fn is_review_sidecar(path: &str) -> (r: bool)
    ensures
        r == (match path_file_name(path@) {
            Some(n) => review_sidecar_name(n),
            None => false,
        }),
{
    match file_name_of(path) {
        Some(n) => contains_str(n.as_str(), ".myvidcomp-review") && ends_with_str(n.as_str(), ".json"),
        None => false,
    }
}

/// Whether a file named `entry_name`, in the temporary folder of a run, is
/// an earlier attempt's temporary output for `input`: this tool's prefix
/// (or the earlier name's), the source's stem and a dash, and a temporary
/// MP4 or MKV ending. A source without a stem counts as `video`.
pub open spec fn cached_temp_of(input: Seq<char>, entry_name: Seq<char>) -> bool {
    let stem = or_default(path_file_stem(input), "video"@);
    (starts_with(entry_name, temp_prefix() + stem + "-"@) || starts_with(
        entry_name,
        legacy_temp_prefix() + stem + "-"@,
    )) && (ends_with(entry_name, ".tmp.mp4"@) || ends_with(entry_name, ".tmp.mkv"@))
}

/// Decides whether one directory entry is a reusable temporary output of a
/// source; see `cached_temp_of`.
pub fn is_cached_temp_of(input: &str, entry_name: &str) -> (r: bool)
    ensures
        r == cached_temp_of(input@, entry_name@),
{
    let stem = match file_stem_of(input) {
        Some(s) => s,
        None => crate::text::copy_str("video"),
    };
    let current = join3(".myvidcomp-", stem.as_str(), "-");
    let legacy = join3(".pvac-", stem.as_str(), "-");
    (starts_with_str(entry_name, current.as_str()) || starts_with_str(entry_name, legacy.as_str()))
        && (ends_with_str(entry_name, ".tmp.mp4") || ends_with_str(entry_name, ".tmp.mkv"))
}

} // verus!
