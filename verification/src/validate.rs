//! Checks that a converted file kept the picture description of its source.
use vstd::prelude::*;
use crate::metadata::{normalized_pix_fmt, normalized_pix_fmt_spec, ColorFields, MetadataExemptions};
use crate::paths::{extension_of, path_extension};
use crate::probe::opt_chars;
use crate::options::TargetCodec;
use crate::text::{copy_str, decimal, decimal_string, eq_ignore_case, eq_ignore_case_str, join2, join3, str_eq};

verus! {

/// Whether a missing chroma location is only the AV1-in-MP4 reporting gap:
/// ffprobe does not report the chroma position of an AV1 stream in MP4 even
/// when it is recorded.
pub open spec fn chroma_gap(label: Seq<char>, output_codec: Seq<char>, path: Seq<char>) -> bool {
    label == "chroma location"@ && eq_ignore_case(output_codec, "av1"@) && match path_extension(path) {
        Some(e) => eq_ignore_case(e, "mp4"@),
        None => false,
    }
}

/// What one colour check finds: nothing when the detail is exempt, absent
/// from the source, or unchanged (ignoring case); otherwise how it changed.
pub open spec fn color_check(
    label: Seq<char>,
    source: Option<Seq<char>>,
    output: Option<Seq<char>>,
    exempt: bool,
    output_codec: Seq<char>,
    path: Seq<char>,
) -> Option<Seq<char>> {
    if exempt {
        None
    } else {
        match source {
            None => None,
            Some(s) => match output {
                Some(o) => if eq_ignore_case(s, o) {
                    None
                } else {
                    Some("output "@ + label + " changed from "@ + s + " to "@ + o + ": "@ + path)
                },
                None => if chroma_gap(label, output_codec, path) {
                    None
                } else {
                    Some("output "@ + label + " is missing, expected "@ + s + ": "@ + path)
                },
            },
        }
    }
}

pub open spec fn first_found(a: Option<Seq<char>>, b: Option<Seq<char>>) -> Option<Seq<char>> {
    match a {
        Some(x) => Some(x),
        None => b,
    }
}

/// The first colour detail of the source the output lost or changed, in the
/// order range, space, transfer, primaries, chroma location. A detail the
/// codec cannot record was already reported as a change, so it is not
/// checked.
pub open spec fn color_error(
    source: ColorFields,
    output: ColorFields,
    output_codec: Seq<char>,
    path: Seq<char>,
    exempt: MetadataExemptions,
) -> Option<Seq<char>> {
    first_found(
        color_check(
            "color range"@,
            opt_chars(source.color_range),
            opt_chars(output.color_range),
            exempt.color_range,
            output_codec,
            path,
        ),
        first_found(
            color_check(
                "color space"@,
                opt_chars(source.color_space),
                opt_chars(output.color_space),
                exempt.color_space,
                output_codec,
                path,
            ),
            first_found(
                color_check(
                    "color transfer"@,
                    opt_chars(source.color_transfer),
                    opt_chars(output.color_transfer),
                    exempt.color_transfer,
                    output_codec,
                    path,
                ),
                first_found(
                    color_check(
                        "color primaries"@,
                        opt_chars(source.color_primaries),
                        opt_chars(output.color_primaries),
                        exempt.color_primaries,
                        output_codec,
                        path,
                    ),
                    color_check(
                        "chroma location"@,
                        opt_chars(source.chroma_location),
                        opt_chars(output.chroma_location),
                        exempt.chroma_location,
                        output_codec,
                        path,
                    ),
                ),
            ),
        ),
    )
}

fn check_color(
    label: &str,
    source: &Option<String>,
    output: &Option<String>,
    exempt: bool,
    output_codec: &str,
    path: &str,
) -> (r: Option<String>)
    ensures
        opt_chars(r) == color_check(label@, opt_chars(*source), opt_chars(*output), exempt, output_codec@, path@),
{
    if exempt {
        return None;
    }
    let s = match source {
        Some(s) => s.as_str(),
        None => {
            return None;
        },
    };
    match output {
        Some(o) => {
            if eq_ignore_case_str(s, o.as_str()) {
                None
            } else {
                let mut out = join3("output ", label, " changed from ");
                out.append(s);
                out.append(" to ");
                out.append(o.as_str());
                out.append(": ");
                out.append(path);
                Some(out)
            }
        },
        None => {
            let gap = str_eq(label, "chroma location") && eq_ignore_case_str(output_codec, "av1") && match extension_of(path) {
                Some(e) => eq_ignore_case_str(e.as_str(), "mp4"),
                None => false,
            };
            if gap {
                None
            } else {
                let mut out = join3("output ", label, " is missing, expected ");
                out.append(s);
                out.append(": ");
                out.append(path);
                Some(out)
            }
        },
    }
}

/// Reports the first colour detail a converted file lost or changed.
/// `output_codec` is the codec ffprobe found in the output at `path`.
pub fn color_metadata_validation_error(
    source: &ColorFields,
    output: &ColorFields,
    output_codec: &str,
    path: &str,
    exempt: &MetadataExemptions,
) -> (r: Option<String>)
    ensures
        opt_chars(r) == color_error(*source, *output, output_codec@, path@, *exempt),
{
    let range = check_color("color range", &source.color_range, &output.color_range, exempt.color_range, output_codec, path);
    if range.is_some() {
        return range;
    }
    let space = check_color("color space", &source.color_space, &output.color_space, exempt.color_space, output_codec, path);
    if space.is_some() {
        return space;
    }
    let transfer = check_color(
        "color transfer",
        &source.color_transfer,
        &output.color_transfer,
        exempt.color_transfer,
        output_codec,
        path,
    );
    if transfer.is_some() {
        return transfer;
    }
    let primaries = check_color(
        "color primaries",
        &source.color_primaries,
        &output.color_primaries,
        exempt.color_primaries,
        output_codec,
        path,
    );
    if primaries.is_some() {
        return primaries;
    }
    check_color(
        "chroma location",
        &source.chroma_location,
        &output.chroma_location,
        exempt.chroma_location,
        output_codec,
        path,
    )
}

/// How a converted file's pixel format differs from its source's, once
/// JPEG-range names are normalized; nothing when the source's is unknown.
pub open spec fn pixel_error(source: Option<Seq<char>>, output: Option<Seq<char>>, path: Seq<char>) -> Option<Seq<char>> {
    match source {
        None => None,
        Some(s) => match output {
            None => Some(
                "output pixel format is missing, expected "@ + normalized_pix_fmt_spec(s) + ": "@ + path,
            ),
            Some(o) => if normalized_pix_fmt_spec(s) == normalized_pix_fmt_spec(o) {
                None
            } else {
                Some(
                    "output pixel format changed from "@ + normalized_pix_fmt_spec(s) + " to "@
                        + normalized_pix_fmt_spec(o) + ": "@ + path,
                )
            },
        },
    }
}

/// Reports a pixel format the conversion changed.
pub fn pixel_format_validation_error(source: Option<&str>, output: Option<&str>, path: &str) -> (r: Option<String>)
    ensures
        opt_chars(r) == pixel_error(
            match source {
                Some(s) => Some(s@),
                None => None,
            },
            match output {
                Some(o) => Some(o@),
                None => None,
            },
            path@,
        ),
{
    let s = match source {
        Some(s) => normalized_pix_fmt(s),
        None => {
            return None;
        },
    };
    match output {
        None => {
            let mut out = join2("output pixel format is missing, expected ", s.as_str());
            out.append(": ");
            out.append(path);
            Some(out)
        },
        Some(o) => {
            let of = normalized_pix_fmt(o);
            if str_eq(s.as_str(), of.as_str()) {
                None
            } else {
                let mut out = join3("output pixel format changed from ", s.as_str(), " to ");
                out.append(of.as_str());
                out.append(": ");
                out.append(path);
                Some(out)
            }
        },
    }
}

/// Why a converted file's codec is refused: it must be the codec that was
/// asked for, as ffprobe names it, in any case.
pub open spec fn codec_error(output_codec: Seq<char>, codec: TargetCodec, path: Seq<char>) -> Option<Seq<char>> {
    if eq_ignore_case(output_codec, codec.wire_name()) {
        None
    } else {
        Some("the converted file is "@ + output_codec + ", not the "@ + codec.wire_name()
            + " that was asked for: "@ + path)
    }
}

/// Checks the converted file's codec; see `codec_error`.
pub fn codec_validation_error(output_codec: &str, codec: TargetCodec, path: &str) -> (r: Option<String>)
    ensures
        opt_chars(r) == codec_error(output_codec@, codec, path@),
{
    let name = codec.ffprobe_name();
    if eq_ignore_case_str(output_codec, name) {
        None
    } else {
        let mut out = join3("the converted file is ", output_codec, ", not the ");
        out.append(name);
        out.append(" that was asked for: ");
        out.append(path);
        Some(out)
    }
}

/// Why a converted file's picture size is refused: it must not change.
pub open spec fn resolution_error(
    source_width: u32,
    source_height: u32,
    output_width: u32,
    output_height: u32,
    path: Seq<char>,
) -> Option<Seq<char>> {
    if source_width == output_width && source_height == output_height {
        None
    } else {
        Some("output resolution changed from "@ + decimal(source_width as nat) + "x"@ + decimal(
            source_height as nat,
        ) + " to "@ + decimal(output_width as nat) + "x"@ + decimal(output_height as nat) + ": "@
            + path)
    }
}

/// Checks the converted file's picture size; see `resolution_error`.
pub fn resolution_validation_error(
    source_width: u32,
    source_height: u32,
    output_width: u32,
    output_height: u32,
    path: &str,
) -> (r: Option<String>)
    ensures
        opt_chars(r) == resolution_error(source_width, source_height, output_width, output_height, path@),
{
    if source_width == output_width && source_height == output_height {
        return None;
    }
    let mut out = copy_str("output resolution changed from ");
    let a = decimal_string(source_width as u64);
    out.append(a.as_str());
    out.append("x");
    let b = decimal_string(source_height as u64);
    out.append(b.as_str());
    out.append(" to ");
    let c = decimal_string(output_width as u64);
    out.append(c.as_str());
    out.append("x");
    let d = decimal_string(output_height as u64);
    out.append(d.as_str());
    out.append(": ");
    out.append(path);
    Some(out)
}

} // verus!
