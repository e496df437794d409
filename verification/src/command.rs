//! The ffmpeg command that encodes one attempt.
//!
//! Every stream the probe found is mapped by its own index and copied; only
//! the first video stream is encoded. The source's frame rate, pixel format
//! (unless the attempt adapts it), colour description and display aspect
//! ratio are stated explicitly, and a metadata bitstream filter carries the
//! colour description into the encoded stream itself.
use vstd::prelude::*;
use crate::codec::{chroma_location_spec, chroma_location_value, color_range_value, metadata_filter, range_is_full};
use crate::metadata::{
    av1_color_primaries_value, av1_matrix, av1_matrix_coefficients_value, av1_primaries,
    av1_transfer, av1_transfer_characteristics_value, normalized_pix_fmt, normalized_pix_fmt_spec,
    opt_static, ColorFields, MetadataExemptions, TranscodePlanKind,
};
use crate::options::TargetCodec;
use crate::probe::opt_chars;
use crate::streams::{map_args, stream_map_args, OutputContainer};
use crate::text::{append_all, copy_str, decimal, decimal_string, join2, owned_all, views};

verus! {

/// `name value` when there is a value; nothing otherwise.
pub open spec fn optional_pair(name: Seq<char>, value: Option<Seq<char>>) -> Seq<Seq<char>> {
    match value {
        Some(v) => seq![name, v],
        None => Seq::empty(),
    }
}

/// Appends `name value` to an argument list when there is a value.
pub fn push_optional_arg(args: &mut Vec<String>, name: &str, value: Option<&str>)
    ensures
        views(final(args)@) == views(old(args)@) + optional_pair(
            name@,
            match value {
                Some(v) => Some(v@),
                None => None,
            },
        ),
{
    let ghost start = views(args@);
    match value {
        Some(v) => {
            args.push(copy_str(name));
            args.push(copy_str(v));
            assert(views(args@) =~= start + seq![name@, v@]);
        },
        None => {
            assert(views(args@) =~= start + Seq::<Seq<char>>::empty());
        },
    }
}

/// The arguments that restate a source's colour description on the output.
pub open spec fn color_args(c: ColorFields) -> Seq<Seq<char>> {
    optional_pair("-color_range:v:0"@, opt_chars(c.color_range)) + optional_pair(
        "-colorspace:v:0"@,
        opt_chars(c.color_space),
    ) + optional_pair("-color_trc:v:0"@, opt_chars(c.color_transfer)) + optional_pair(
        "-color_primaries:v:0"@,
        opt_chars(c.color_primaries),
    ) + optional_pair("-chroma_sample_location:v:0"@, opt_chars(c.chroma_location))
}

fn opt_str(o: &Option<String>) -> (r: Option<&str>)
    ensures
        match r {
            Some(s) => opt_chars(*o) == Some(s@),
            None => opt_chars(*o) is None,
        },
{
    match o {
        Some(s) => Some(s.as_str()),
        None => None,
    }
}

/// Builds the arguments that restate a source's colour description.
pub fn color_metadata_args(colors: &ColorFields) -> (r: Vec<String>)
    ensures
        views(r@) == color_args(*colors),
{
    let mut args: Vec<String> = Vec::new();
    push_optional_arg(&mut args, "-color_range:v:0", opt_str(&colors.color_range));
    push_optional_arg(&mut args, "-colorspace:v:0", opt_str(&colors.color_space));
    push_optional_arg(&mut args, "-color_trc:v:0", opt_str(&colors.color_transfer));
    push_optional_arg(&mut args, "-color_primaries:v:0", opt_str(&colors.color_primaries));
    push_optional_arg(&mut args, "-chroma_sample_location:v:0", opt_str(&colors.chroma_location));
    assert(views(args@) =~= color_args(*colors));
    args
}

/// One `option=value` setting of a metadata filter, when the source has the
/// detail, the attempt keeps it, and the codec has a code for it.
pub open spec fn setting(option: Seq<char>, kept: bool, code: Option<Seq<char>>) -> Seq<Seq<char>> {
    if kept && code is Some {
        seq![option + "="@ + code.unwrap()]
    } else {
        Seq::empty()
    }
}

pub open spec fn code_of(value: Option<Seq<char>>, f: spec_fn(Seq<char>) -> Option<Seq<char>>) -> Option<Seq<char>> {
    match value {
        Some(v) => f(v),
        None => None,
    }
}

/// The settings a codec's metadata filter is given for a source, in the
/// filter's order: primaries, transfer, matrix, range, chroma position.
pub open spec fn filter_settings(codec: TargetCodec, c: ColorFields, e: MetadataExemptions) -> Seq<Seq<char>> {
    let hevc = codec == TargetCodec::Hevc;
    setting(
        if hevc { "colour_primaries"@ } else { "color_primaries"@ },
        !e.color_primaries,
        code_of(opt_chars(c.color_primaries), |v: Seq<char>| av1_primaries(v)),
    ) + setting(
        "transfer_characteristics"@,
        !e.color_transfer,
        code_of(opt_chars(c.color_transfer), |v: Seq<char>| av1_transfer(v)),
    ) + setting(
        "matrix_coefficients"@,
        !e.color_space,
        code_of(opt_chars(c.color_space), |v: Seq<char>| av1_matrix(v)),
    ) + setting(
        if hevc { "video_full_range_flag"@ } else { "color_range"@ },
        !e.color_range,
        code_of(
            opt_chars(c.color_range),
            |v: Seq<char>| match range_is_full(v) {
                Some(full) => Some(decimal(if full { 1nat } else { 0nat })),
                None => None,
            },
        ),
    ) + setting(
        if hevc { "chroma_sample_loc_type"@ } else { "chroma_sample_position"@ },
        !e.chroma_location,
        code_of(
            opt_chars(c.chroma_location),
            |v: Seq<char>| match chroma_location_spec(codec, v) {
                Some(x) => Some(decimal(x as nat)),
                None => None,
            },
        ),
    )
}

/// Settings joined with `:`.
pub open spec fn colon_joined(parts: Seq<Seq<char>>) -> Seq<char>
    decreases parts.len(),
{
    if parts.len() == 0 {
        Seq::empty()
    } else if parts.len() == 1 {
        parts[0]
    } else {
        colon_joined(parts.drop_last()) + ":"@ + parts.last()
    }
}

/// The bitstream filter that carries a source's colour description into the
/// encoded stream: `NAME=setting:setting`, or none when the codec has no
/// such filter or there is nothing to carry.
pub open spec fn bsf_spec(codec: TargetCodec, c: ColorFields, e: MetadataExemptions) -> Option<Seq<char>> {
    let settings = filter_settings(codec, c, e);
    if codec == TargetCodec::Vvc || settings.len() == 0 {
        None
    } else {
        Some(
            (if codec == TargetCodec::Hevc { "hevc_metadata"@ } else { "av1_metadata"@ }) + "="@
                + colon_joined(settings),
        )
    }
}

fn add_setting(settings: &mut Vec<String>, option: &str, kept: bool, code: Option<String>)
    ensures
        views(final(settings)@) == views(old(settings)@) + setting(
            option@,
            kept,
            match code {
                Some(c) => Some(c@),
                None => None,
            },
        ),
{
    let ghost start = views(settings@);
    if kept {
        match code {
            Some(c) => {
                let mut s = join2(option, "=");
                s.append(c.as_str());
                settings.push(s);
                assert(views(settings@) =~= start + seq![option@ + "="@ + c@]);
                return;
            },
            None => {},
        }
    }
    assert(views(settings@) =~= start + Seq::<Seq<char>>::empty());
}

fn static_code(o: Option<&'static str>) -> (r: Option<String>)
    ensures
        match r {
            Some(s) => opt_static(o) == Some(s@),
            None => o is None,
        },
{
    match o {
        Some(s) => Some(copy_str(s)),
        None => None,
    }
}

fn number_code(o: Option<u32>) -> (r: Option<String>)
    ensures
        match r {
            Some(s) => o is Some && s@ == decimal(o.unwrap() as nat),
            None => o is None,
        },
{
    match o {
        Some(x) => Some(decimal_string(x as u64)),
        None => None,
    }
}

fn join_colon(parts: &Vec<String>) -> (r: String)
    ensures
        r@ == colon_joined(views(parts@)),
{
    let ghost all = views(parts@);
    let mut out = String::new();
    let mut i: usize = 0;
    assert(all.subrange(0, 0) =~= Seq::<Seq<char>>::empty());
    while i < parts.len()
        invariant
            i <= parts.len(),
            all == views(parts@),
            out@ == colon_joined(all.subrange(0, i as int)),
        decreases parts.len() - i,
    {
        let ghost prev = all.subrange(0, i as int);
        let ghost next = all.subrange(0, i + 1);
        assert(next.drop_last() =~= prev);
        assert(next.last() == parts@[i as int]@);
        if i > 0 {
            out.append(":");
        }
        out.append(parts[i].as_str());
        proof {
            if i == 0 {
                assert(out@ =~= colon_joined(next));
            }
        }
        i = i + 1;
    }
    assert(all.subrange(0, parts@.len() as int) =~= all);
    out
}

/// Builds the bitstream-filter argument that carries the colour description.
pub fn metadata_bsf_arg(codec: TargetCodec, colors: &ColorFields, exempt: &MetadataExemptions) -> (r: Option<String>)
    ensures
        opt_chars(r) == bsf_spec(codec, *colors, *exempt),
{
    let filter = match metadata_filter(codec) {
        Some(f) => f,
        None => {
            return None;
        },
    };
    let chroma_option = match filter.chroma {
        Some(c) => c,
        None => "",
    };
    proof {
        reveal_strlit("hevc_metadata");
        reveal_strlit("av1_metadata");
    }
    let mut settings: Vec<String> = Vec::new();
    let primaries = match opt_str(&colors.color_primaries) {
        Some(v) => static_code(av1_color_primaries_value(v)),
        None => None,
    };
    add_setting(&mut settings, filter.color_primaries, !exempt.color_primaries, primaries);
    let transfer = match opt_str(&colors.color_transfer) {
        Some(v) => static_code(av1_transfer_characteristics_value(v)),
        None => None,
    };
    add_setting(&mut settings, filter.transfer, !exempt.color_transfer, transfer);
    let matrix = match opt_str(&colors.color_space) {
        Some(v) => static_code(av1_matrix_coefficients_value(v)),
        None => None,
    };
    add_setting(&mut settings, filter.matrix, !exempt.color_space, matrix);
    let range = match opt_str(&colors.color_range) {
        Some(v) => number_code(color_range_value(codec, v)),
        None => None,
    };
    add_setting(&mut settings, filter.range, !exempt.color_range, range);
    let chroma = match opt_str(&colors.chroma_location) {
        Some(v) => number_code(chroma_location_value(codec, v)),
        None => None,
    };
    add_setting(&mut settings, chroma_option, !exempt.chroma_location, chroma);
    assert(views(settings@) =~= filter_settings(codec, *colors, *exempt));
    if settings.len() == 0 {
        return None;
    }
    let mut out = join2(filter.name, "=");
    let joined = join_colon(&settings);
    out.append(joined.as_str());
    Some(out)
}

/// What the encode command needs to know about one file.
#[derive(Debug, Clone, PartialEq, Eq)]
pub struct EncodeJob {
    pub input_path: String,
    /// Where the attempt writes its output.
    pub temp_path: String,
    /// The indexes of the streams to carry over, as the probe found them.
    pub mapped_stream_indexes: Vec<usize>,
    /// Whether the source has chapters worth copying; chapter tracks that
    /// only hold placeholders are dropped.
    pub meaningful_chapters: bool,
    pub output_container: OutputContainer,
    pub nominal_frame_rate: Option<String>,
    pub avg_frame_rate: Option<String>,
    pub pix_fmt: Option<String>,
    pub colors: ColorFields,
    pub display_aspect_ratio: Option<String>,
}

pub open spec fn first_text(a: Option<Seq<char>>, b: Option<Seq<char>>) -> Option<Seq<char>> {
    match a {
        Some(x) => Some(x),
        None => b,
    }
}

/// The pixel format the output is written in: the one the attempt adapts
/// to, else the source's own (with a JPEG-range name normalized).
pub open spec fn output_format_of(kind: TranscodePlanKind, pix_fmt: Option<Seq<char>>) -> Option<Seq<char>> {
    match kind {
        TranscodePlanKind::Adapted { output_pix_fmt, .. } => Some(output_pix_fmt@),
        TranscodePlanKind::Exact => match pix_fmt {
            Some(f) => Some(normalized_pix_fmt_spec(f)),
            None => None,
        },
    }
}

/// The start of an encode command: read the input, map every probed stream,
/// copy them all, and encode the first video stream with `encoder`.
pub open spec fn head_args(job: EncodeJob, encoder: Seq<char>, quality: Seq<Seq<char>>) -> Seq<Seq<char>> {
    seq!["-hide_banner"@, "-nostdin"@, "-y"@, "-stats_period"@, "1"@, "-i"@, job.input_path@]
        + map_args(job.mapped_stream_indexes@) + seq![
        "-map_metadata"@,
        "0"@,
        "-map_chapters"@,
        if job.meaningful_chapters { "0"@ } else { "-1"@ },
        "-c"@,
        "copy"@,
        "-c:v:0"@,
        encoder,
    ] + quality
}

/// The picture settings: the MP4 tag an H.265 stream needs, the frame rate,
/// and the pixel format.
pub open spec fn picture_args(job: EncodeJob, kind: TranscodePlanKind, codec: TargetCodec) -> Seq<Seq<char>> {
    (if job.output_container == OutputContainer::Mp4 && codec == TargetCodec::Hevc {
        seq!["-tag:v"@, "hvc1"@]
    } else {
        Seq::empty()
    }) + optional_pair(
        "-r:v:0"@,
        first_text(opt_chars(job.nominal_frame_rate), opt_chars(job.avg_frame_rate)),
    ) + optional_pair("-pix_fmt:v:0"@, output_format_of(kind, opt_chars(job.pix_fmt)))
}

/// The colour and shape settings: the colour description, the display
/// aspect ratio, and the metadata filter.
pub open spec fn description_args(job: EncodeJob, exempt: MetadataExemptions, codec: TargetCodec) -> Seq<Seq<char>> {
    color_args(job.colors) + optional_pair("-aspect"@, opt_chars(job.display_aspect_ratio))
        + optional_pair("-bsf:v:0"@, bsf_spec(codec, job.colors, exempt))
}

/// The end of the command: the muxer's settings, progress on standard
/// output, and the output file.
pub open spec fn output_args(job: EncodeJob) -> Seq<Seq<char>> {
    if job.output_container == OutputContainer::Mkv {
        seq!["-f"@, "matroska"@, "-fps_mode:v:0"@, "cfr"@, "-progress"@, "pipe:1"@, job.temp_path@]
    } else {
        seq!["-movflags"@, "+faststart"@, "-fps_mode:v:0"@, "cfr"@, "-progress"@, "pipe:1"@, job.temp_path@]
    }
}

/// The whole argument list of one encode attempt with `encoder`, whose
/// quality arguments are `quality`.
pub open spec fn encode_args(
    job: EncodeJob,
    encoder: Seq<char>,
    kind: TranscodePlanKind,
    quality: Seq<Seq<char>>,
    exempt: MetadataExemptions,
    codec: TargetCodec,
) -> Seq<Seq<char>> {
    head_args(job, encoder, quality) + picture_args(job, kind, codec) + description_args(job, exempt, codec)
        + output_args(job)
}

fn head_of(job: &EncodeJob, encoder: &str, quality_args: &Vec<String>) -> (r: Vec<String>)
    ensures
        views(r@) == head_args(*job, encoder@, views(quality_args@)),
{
    let mut args = owned_all(vec!["-hide_banner", "-nostdin", "-y", "-stats_period", "1", "-i"]);
    let ghost head = views(args@);
    args.push(copy_str(job.input_path.as_str()));
    let ghost s0 = views(args@);
    assert(s0 =~= head.push(job.input_path@));
    let maps = stream_map_args(&job.mapped_stream_indexes);
    append_all(&mut args, &maps);
    let chapters = if job.meaningful_chapters {
        "0"
    } else {
        "-1"
    };
    let mid = owned_all(vec!["-map_metadata", "0", "-map_chapters", chapters, "-c", "copy", "-c:v:0", encoder]);
    append_all(&mut args, &mid);
    append_all(&mut args, quality_args);
    assert(views(args@) =~= head_args(*job, encoder@, views(quality_args@)));
    args
}

/// The frame rate the output is locked to: the source's nominal rate when
/// it has one, else its average rate.
pub fn output_frame_rate_arg(job: &EncodeJob) -> (r: Option<&str>)
    ensures
        opt_chars_of(r) == first_text(opt_chars(job.nominal_frame_rate), opt_chars(job.avg_frame_rate)),
{
    match opt_str(&job.nominal_frame_rate) {
        Some(r) => Some(r),
        None => opt_str(&job.avg_frame_rate),
    }
}

/// The source's pixel format as the output is written in it, with a
/// JPEG-range name normalized; none when the probe reported none.
pub fn output_pix_fmt_arg(job: &EncodeJob) -> (r: Option<String>)
    ensures
        opt_chars(r) == output_format_of(TranscodePlanKind::Exact, opt_chars(job.pix_fmt)),
{
    match opt_str(&job.pix_fmt) {
        Some(f) => Some(normalized_pix_fmt(f)),
        None => None,
    }
}

pub open spec fn opt_chars_of(o: Option<&str>) -> Option<Seq<char>> {
    match o {
        Some(s) => Some(s@),
        None => None,
    }
}

fn picture_of(job: &EncodeJob, kind: TranscodePlanKind, codec: TargetCodec) -> (r: Vec<String>)
    ensures
        views(r@) == picture_args(*job, kind, codec),
{
    let mut args: Vec<String> = Vec::new();
    if job.output_container == OutputContainer::Mp4 {
        match codec.mp4_tag() {
            Some(tag) => {
                args.push(copy_str("-tag:v"));
                args.push(copy_str(tag));
            },
            None => {},
        }
    }
    let ghost a2 = views(args@);
    assert(a2 =~= (if job.output_container == OutputContainer::Mp4 && codec == TargetCodec::Hevc {
        seq!["-tag:v"@, "hvc1"@]
    } else {
        Seq::empty()
    }));
    let rate = output_frame_rate_arg(job);
    push_optional_arg(&mut args, "-r:v:0", rate);
    let source_format = output_pix_fmt_arg(job);
    let output_format = match kind.output_pix_fmt() {
        Some(f) => Some(copy_str(f)),
        None => source_format,
    };
    let format_ref = match &output_format {
        Some(f) => Some(f.as_str()),
        None => None,
    };
    push_optional_arg(&mut args, "-pix_fmt:v:0", format_ref);
    assert(views(args@) =~= picture_args(*job, kind, codec));
    args
}

fn description_of(job: &EncodeJob, exempt: &MetadataExemptions, codec: TargetCodec) -> (r: Vec<String>)
    ensures
        views(r@) == description_args(*job, *exempt, codec),
{
    let mut args = color_metadata_args(&job.colors);
    push_optional_arg(&mut args, "-aspect", opt_str(&job.display_aspect_ratio));
    let bsf = metadata_bsf_arg(codec, &job.colors, exempt);
    let bsf_ref = match &bsf {
        Some(f) => Some(f.as_str()),
        None => None,
    };
    push_optional_arg(&mut args, "-bsf:v:0", bsf_ref);
    args
}

fn output_of(job: &EncodeJob) -> (r: Vec<String>)
    ensures
        views(r@) == output_args(*job),
{
    let mut args = if job.output_container == OutputContainer::Mkv {
        owned_all(vec!["-f", "matroska", "-fps_mode:v:0", "cfr", "-progress", "pipe:1"])
    } else {
        owned_all(vec!["-movflags", "+faststart", "-fps_mode:v:0", "cfr", "-progress", "pipe:1"])
    };
    let ghost a = views(args@);
    args.push(copy_str(job.temp_path.as_str()));
    assert(views(args@) =~= a.push(job.temp_path@));
    assert(views(args@) =~= output_args(*job));
    args
}

/// Builds the ffmpeg arguments of one encode attempt. Decoding is left to
/// the processor: automatic hardware decoding crashed ffmpeg too often, and
/// the encode dominates the time anyway.
pub fn build_ffmpeg_args_for_plan(
    job: &EncodeJob,
    encoder: &str,
    kind: TranscodePlanKind,
    quality_args: &Vec<String>,
    exempt: &MetadataExemptions,
    codec: TargetCodec,
) -> (r: Vec<String>)
    ensures
        views(r@) == encode_args(*job, encoder@, kind, views(quality_args@), *exempt, codec),
{
    let mut args = head_of(job, encoder, quality_args);
    let picture = picture_of(job, kind, codec);
    append_all(&mut args, &picture);
    let description = description_of(job, exempt, codec);
    append_all(&mut args, &description);
    let output = output_of(job);
    append_all(&mut args, &output);
    args
}

/// The command that rewrites a finished output with its colour description
/// restated: every stream copied as it is, with the metadata bitstream
/// filter `filter` applied to the video. `stream_indexes` are the output's
/// own streams, as probed.
pub open spec fn repair_args(
    source: Seq<char>,
    destination: Seq<char>,
    colors: ColorFields,
    filter: Seq<char>,
    stream_indexes: Seq<usize>,
    meaningful_chapters: bool,
    container: OutputContainer,
) -> Seq<Seq<char>> {
    seq!["-hide_banner"@, "-nostdin"@, "-n"@, "-i"@, source] + map_args(stream_indexes) + seq![
        "-map_metadata"@,
        "0"@,
        "-map_chapters"@,
        if meaningful_chapters { "0"@ } else { "-1"@ },
        "-c"@,
        "copy"@,
    ] + color_args(colors) + seq!["-bsf:v:0"@, filter] + if container == OutputContainer::Mkv {
        seq!["-f"@, "matroska"@, destination]
    } else {
        seq!["-movflags"@, "+faststart+write_colr"@, destination]
    }
}

/// Builds the metadata repair command; see `repair_args`.
pub fn build_av1_metadata_repair_args(
    source: &str,
    destination: &str,
    colors: &ColorFields,
    filter: &str,
    stream_indexes: &Vec<usize>,
    meaningful_chapters: bool,
    container: OutputContainer,
) -> (r: Vec<String>)
    ensures
        views(r@) == repair_args(
            source@,
            destination@,
            *colors,
            filter@,
            stream_indexes@,
            meaningful_chapters,
            container,
        ),
{
    let mut args = owned_all(vec!["-hide_banner", "-nostdin", "-n", "-i"]);
    let ghost head = views(args@);
    args.push(copy_str(source));
    let ghost start = views(args@);
    assert(start =~= head.push(source@));
    let maps = stream_map_args(stream_indexes);
    append_all(&mut args, &maps);
    let ghost mapped = views(args@);
    assert(mapped == start + map_args(stream_indexes@));
    let chapters = if meaningful_chapters {
        "0"
    } else {
        "-1"
    };
    let middle = owned_all(vec!["-map_metadata", "0", "-map_chapters", chapters, "-c", "copy"]);
    append_all(&mut args, &middle);
    let ghost before_colours = views(args@);
    assert(before_colours =~= mapped + seq![
        "-map_metadata"@,
        "0"@,
        "-map_chapters"@,
        if meaningful_chapters { "0"@ } else { "-1"@ },
        "-c"@,
        "copy"@,
    ]);
    let colours = color_metadata_args(colors);
    append_all(&mut args, &colours);
    assert(views(args@) == before_colours + color_args(*colors));
    args.push(copy_str("-bsf:v:0"));
    args.push(copy_str(filter));
    let ghost before_tail = views(args@);
    assert(before_tail =~= before_colours + color_args(*colors) + seq!["-bsf:v:0"@, filter@]);
    if container == OutputContainer::Mkv {
        args.push(copy_str("-f"));
        args.push(copy_str("matroska"));
        args.push(copy_str(destination));
        assert(views(args@) =~= before_tail + seq!["-f"@, "matroska"@, destination@]);
    } else {
        args.push(copy_str("-movflags"));
        args.push(copy_str("+faststart+write_colr"));
        args.push(copy_str(destination));
        assert(views(args@) =~= before_tail + seq!["-movflags"@, "+faststart+write_colr"@, destination@]);
    }
    assert(views(args@) =~= repair_args(
        source@,
        destination@,
        *colors,
        filter@,
        stream_indexes@,
        meaningful_chapters,
        container,
    ));
    args
}

} // verus!
