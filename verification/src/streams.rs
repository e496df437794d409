//! Which streams a converted file carries, and in which container.
//!
//! Only the first video stream is encoded; every other stream is copied as it
//! is, so the container has to accept each copied stream, and the result has
//! to carry the same streams in the same order.
use vstd::prelude::*;
use crate::options::TargetCodec;
use crate::probe::{opt_chars, StreamInfo};
use crate::run::OutputFormat;
use crate::text::{copy_str, decimal, decimal_string, eq_ignore_case, eq_ignore_case_str, owned_all, push_char, str_eq, str_views, views};

verus! {

/// The container a converted file is written in.
#[derive(Debug, Clone, Copy, PartialEq, Eq, Structural)]
pub enum OutputContainer {
    Mp4,
    Mkv,
}

impl OutputContainer {
    /// The file extension, without a dot.
    pub fn extension(&self) -> (r: &'static str)
        ensures
            r@ == (match *self {
                OutputContainer::Mp4 => "mp4"@,
                OutputContainer::Mkv => "mkv"@,
            }),
    {
        match self {
            OutputContainer::Mp4 => "mp4",
            OutputContainer::Mkv => "mkv",
        }
    }

    /// The name ffmpeg knows the container's muxer by.
    pub fn ffmpeg_format(&self) -> (r: &'static str)
        ensures
            r@ == (match *self {
                OutputContainer::Mp4 => "mp4"@,
                OutputContainer::Mkv => "matroska"@,
            }),
    {
        match self {
            OutputContainer::Mp4 => "mp4",
            OutputContainer::Mkv => "matroska",
        }
    }
}

pub open spec fn mp4_video_codec(c: Seq<char>) -> bool {
    c == "av1"@ || c == "h264"@ || c == "hevc"@ || c == "mpeg4"@ || c == "mjpeg"@ || c == "jpeg2000"@
}

pub open spec fn mp4_audio_codec(c: Seq<char>) -> bool {
    c == "aac"@ || c == "mp3"@ || c == "alac"@ || c == "ac3"@ || c == "eac3"@ || c == "flac"@ || c
        == "opus"@
}

pub open spec fn mp4_subtitle_codec(c: Seq<char>) -> bool {
    c == "mov_text"@
}

/// Whether a copied video codec is known to be safe in MP4.
pub fn is_mp4_video_codec(codec: &str) -> (r: bool)
    ensures
        r == mp4_video_codec(codec@),
{
    str_eq(codec, "av1") || str_eq(codec, "h264") || str_eq(codec, "hevc") || str_eq(codec, "mpeg4")
        || str_eq(codec, "mjpeg") || str_eq(codec, "jpeg2000")
}

/// Whether a copied audio codec is known to be safe in MP4.
pub fn is_mp4_audio_codec(codec: &str) -> (r: bool)
    ensures
        r == mp4_audio_codec(codec@),
{
    str_eq(codec, "aac") || str_eq(codec, "mp3") || str_eq(codec, "alac") || str_eq(codec, "ac3")
        || str_eq(codec, "eac3") || str_eq(codec, "flac") || str_eq(codec, "opus")
}

/// Whether a copied subtitle codec is known to be safe in MP4.
pub fn is_mp4_subtitle_codec(codec: &str) -> (r: bool)
    ensures
        r == mp4_subtitle_codec(codec@),
{
    str_eq(codec, "mov_text")
}

pub open spec fn mp4_copyable(s: StreamInfo) -> bool {
    if s.codec_type@ == "video"@ {
        mp4_video_codec(s.codec_name@)
    } else if s.codec_type@ == "audio"@ {
        mp4_audio_codec(s.codec_name@)
    } else if s.codec_type@ == "subtitle"@ {
        mp4_subtitle_codec(s.codec_name@)
    } else {
        false
    }
}

/// Whether a stream other than the primary video can be copied into MP4.
pub fn is_mp4_copy_compatible_stream(stream: &StreamInfo) -> (r: bool)
    ensures
        r == mp4_copyable(*stream),
{
    let t = stream.codec_type.as_str();
    if str_eq(t, "video") {
        is_mp4_video_codec(stream.codec_name.as_str())
    } else if str_eq(t, "audio") {
        is_mp4_audio_codec(stream.codec_name.as_str())
    } else if str_eq(t, "subtitle") {
        is_mp4_subtitle_codec(stream.codec_name.as_str())
    } else {
        false
    }
}

/// The index of the primary video stream among `streams[..n]`: the first
/// stream whose type is video, if any.
pub open spec fn first_video_before(streams: Seq<StreamInfo>, n: int) -> Option<int>
    decreases n,
{
    if n <= 0 {
        None
    } else {
        match first_video_before(streams, n - 1) {
            Some(i) => Some(i),
            None => if streams[n - 1].codec_type@ == "video"@ {
                Some(n - 1)
            } else {
                None
            },
        }
    }
}

/// Whether stream `i` is the primary video stream: the first of type video.
pub open spec fn is_primary(streams: Seq<StreamInfo>, i: int) -> bool {
    streams[i].codec_type@ == "video"@ && first_video_before(streams, i) is None
}

/// The first stream, other than the primary video, that fails `ok`.
pub open spec fn first_bad_mp4(streams: Seq<StreamInfo>, n: int) -> Option<int>
    decreases n,
{
    if n <= 0 {
        None
    } else {
        match first_bad_mp4(streams, n - 1) {
            Some(i) => Some(i),
            None => if !is_primary(streams, n - 1) && !mp4_copyable(streams[n - 1]) {
                Some(n - 1)
            } else {
                None
            },
        }
    }
}

pub open spec fn mkv_copyable(s: StreamInfo) -> bool {
    s.codec_type@ == "video"@ || s.codec_type@ == "audio"@ || s.codec_type@ == "subtitle"@
}

pub open spec fn first_bad_mkv(streams: Seq<StreamInfo>, n: int) -> Option<int>
    decreases n,
{
    if n <= 0 {
        None
    } else {
        match first_bad_mkv(streams, n - 1) {
            Some(i) => Some(i),
            None => if !is_primary(streams, n - 1) && !mkv_copyable(streams[n - 1]) {
                Some(n - 1)
            } else {
                None
            },
        }
    }
}

/// The codecs that are copied into MP4 as they are, by stream type.
pub open spec fn mp4_safe_video() -> Seq<Seq<char>> {
    seq!["av1"@, "h264"@, "hevc"@, "mpeg4"@, "mjpeg"@, "jpeg2000"@]
}

pub open spec fn mp4_safe_audio() -> Seq<Seq<char>> {
    seq!["aac"@, "mp3"@, "alac"@, "ac3"@, "eac3"@, "flac"@, "opus"@]
}

/// Whether MP4 can carry a copied stream: video, audio or subtitles in one
/// of the codecs listed for that type.
pub open spec fn mp4_listed(s: StreamInfo) -> bool {
    ||| s.codec_type@ == "video"@ && mp4_safe_video().contains(s.codec_name@)
    ||| s.codec_type@ == "audio"@ && mp4_safe_audio().contains(s.codec_name@)
    ||| s.codec_type@ == "subtitle"@ && s.codec_name@ == "mov_text"@
}

proof fn lemma_video_list(c: Seq<char>)
    ensures
        mp4_safe_video().contains(c) == mp4_video_codec(c),
{
    let v = mp4_safe_video();
    if mp4_video_codec(c) {
        if c == "av1"@ { assert(v[0] == c); } else if c == "h264"@ { assert(v[1] == c); }
        else if c == "hevc"@ { assert(v[2] == c); } else if c == "mpeg4"@ { assert(v[3] == c); }
        else if c == "mjpeg"@ { assert(v[4] == c); } else { assert(v[5] == c); }
    }
    if v.contains(c) {
        let k = choose|k: int| 0 <= k < v.len() && v[k] == c;
        assert(0 <= k < 6);
        if k == 0 {} else if k == 1 {} else if k == 2 {} else if k == 3 {} else if k == 4 {} else {}
    }
}

proof fn lemma_audio_list(c: Seq<char>)
    ensures
        mp4_safe_audio().contains(c) == mp4_audio_codec(c),
{
    let a = mp4_safe_audio();
    if mp4_audio_codec(c) {
        if c == "aac"@ { assert(a[0] == c); } else if c == "mp3"@ { assert(a[1] == c); }
        else if c == "alac"@ { assert(a[2] == c); } else if c == "ac3"@ { assert(a[3] == c); }
        else if c == "eac3"@ { assert(a[4] == c); } else if c == "flac"@ { assert(a[5] == c); }
        else { assert(a[6] == c); }
    }
    if a.contains(c) {
        let k = choose|k: int| 0 <= k < a.len() && a[k] == c;
        assert(0 <= k < 7);
        if k == 0 {} else if k == 1 {} else if k == 2 {} else if k == 3 {} else if k == 4 {}
        else if k == 5 {} else {}
    }
}

proof fn lemma_mp4_listed(s: StreamInfo)
    ensures
        mp4_copyable(s) == mp4_listed(s),
{
    reveal_strlit("video");
    reveal_strlit("audio");
    reveal_strlit("subtitle");
    lemma_video_list(s.codec_name@);
    lemma_audio_list(s.codec_name@);
    let t = s.codec_type@;
    assert("video"@ != "audio"@) by {
        assert("video"@[0] != "audio"@[0]);
    }
    assert("video"@ != "subtitle"@) by {
        assert("video"@[0] != "subtitle"@[0]);
    }
    assert("audio"@ != "subtitle"@) by {
        assert("audio"@[0] != "subtitle"@[0]);
    }
    if t == "video"@ {
        assert(mp4_copyable(s) == mp4_video_codec(s.codec_name@));
    } else if t == "audio"@ {
        assert(mp4_copyable(s) == mp4_audio_codec(s.codec_name@));
    } else if t == "subtitle"@ {
        assert(mp4_copyable(s) == mp4_subtitle_codec(s.codec_name@));
    }
}

proof fn lemma_first_bad_mp4_none(streams: Seq<StreamInfo>, n: int)
    requires
        0 <= n <= streams.len(),
    ensures
        (first_bad_mp4(streams, n) is None) == (forall|i: int|
            0 <= i < n && !is_primary(streams, i) ==> mp4_listed(#[trigger] streams[i])),
    decreases n,
{
    if n > 0 {
        lemma_first_bad_mp4_none(streams, n - 1);
        lemma_mp4_listed(streams[n - 1]);
        if first_bad_mp4(streams, n) is None {
            assert forall|i: int| 0 <= i < n && !is_primary(streams, i) implies mp4_listed(
                #[trigger] streams[i],
            ) by {
                if i == n - 1 {
                } else {
                    assert(0 <= i < n - 1);
                }
            }
        } else if first_bad_mp4(streams, n - 1) is None {
            assert(!is_primary(streams, n - 1) && !mp4_listed(streams[n - 1]));
        }
    }
}

/// A file goes into MP4 exactly when every stream but the first video is
/// one MP4 carries as it is: video in av1, h264, hevc, mpeg4, mjpeg or
/// jpeg2000; audio in aac, mp3, alac, ac3, eac3, flac or opus; subtitles in
/// mov_text. Otherwise MP4 is refused.
pub proof fn mp4_takes_exactly_the_listed_codecs(streams: Seq<StreamInfo>)
    ensures
        (first_bad_mp4(streams, streams.len() as int) is None) == (forall|i: int|
            0 <= i < streams.len() && !is_primary(streams, i) ==> mp4_listed(#[trigger] streams[i])),
{
    lemma_first_bad_mp4_none(streams, streams.len() as int);
}

proof fn lemma_first_bad_mkv_none(streams: Seq<StreamInfo>, n: int)
    requires
        0 <= n <= streams.len(),
    ensures
        (first_bad_mkv(streams, n) is None) == (forall|i: int|
            0 <= i < n && !is_primary(streams, i) ==> #[trigger] streams[i].codec_type@ == "video"@
                || streams[i].codec_type@ == "audio"@ || streams[i].codec_type@ == "subtitle"@),
    decreases n,
{
    if n > 0 {
        lemma_first_bad_mkv_none(streams, n - 1);
        if first_bad_mkv(streams, n) is None {
            assert forall|i: int| 0 <= i < n && !is_primary(streams, i) implies #[trigger] streams[i].codec_type@
                == "video"@ || streams[i].codec_type@ == "audio"@ || streams[i].codec_type@ == "subtitle"@ by {
                if i < n - 1 {
                    assert(0 <= i < n - 1);
                }
            }
        }
    }
}

/// The Matroska fallback takes a file exactly when every stream but the
/// first video is a video, audio or subtitle stream, whatever its codec.
pub proof fn matroska_takes_exactly_video_audio_and_subtitles(streams: Seq<StreamInfo>)
    ensures
        (first_bad_mkv(streams, streams.len() as int) is None) == (forall|i: int|
            0 <= i < streams.len() && !is_primary(streams, i) ==> #[trigger] streams[i].codec_type@
                == "video"@ || streams[i].codec_type@ == "audio"@ || streams[i].codec_type@ == "subtitle"@),
{
    lemma_first_bad_mkv_none(streams, streams.len() as int);
}

/// How a stream is named in a refusal: `stream #I (TYPE) codec 'NAME'`.
pub open spec fn stream_words(s: StreamInfo) -> Seq<char> {
    "stream #"@ + decimal(s.index as nat) + " ("@ + s.codec_type@ + ") codec '"@ + s.codec_name@
        + "'"@
}

pub open spec fn mp4_reason_text(s: StreamInfo) -> Seq<char> {
    stream_words(s) + match opt_chars(s.handler_name) {
        Some(h) => ", handler '"@ + h + "'"@,
        None => Seq::empty(),
    } + " is not MP4-copy-compatible"@
}

pub open spec fn mkv_reason_text(s: StreamInfo) -> Seq<char> {
    stream_words(s) + " is not conservatively Matroska-copy-compatible"@
}

fn describe_stream(s: &StreamInfo) -> (r: String)
    ensures
        r@ == stream_words(*s),
{
    let mut out = copy_str("stream #");
    let n = decimal_string(s.index as u64);
    out.append(n.as_str());
    out.append(" (");
    out.append(s.codec_type.as_str());
    out.append(") codec '");
    out.append(s.codec_name.as_str());
    out.append("'");
    out
}

/// The first stream, other than the primary video, that cannot be copied
/// into MP4, described for the user; none when every one can.
pub fn mp4_incompatible_stream_reason(streams: &Vec<StreamInfo>) -> (r: Option<String>)
    ensures
        match first_bad_mp4(streams@, streams@.len() as int) {
            Some(i) => r matches Some(m) && m@ == mp4_reason_text(streams@[i]),
            None => r is None,
        },
{
    let mut seen_primary_video = false;
    let mut i: usize = 0;
    while i < streams.len()
        invariant
            i <= streams.len(),
            seen_primary_video == (first_video_before(streams@, i as int) is Some),
            first_bad_mp4(streams@, i as int) is None,
        decreases streams.len() - i,
    {
        let s = &streams[i];
        let is_video = str_eq(s.codec_type.as_str(), "video");
        if is_video && !seen_primary_video {
            seen_primary_video = true;
        } else if !is_mp4_copy_compatible_stream(s) {
            let mut out = describe_stream(s);
            match &s.handler_name {
                Some(h) => {
                    out.append(", handler '");
                    out.append(h.as_str());
                    out.append("'");
                },
                None => {},
            }
            out.append(" is not MP4-copy-compatible");
            proof {
                assert(first_bad_mp4(streams@, i + 1) == Some(i as int));
                lemma_first_bad_mp4_stays(streams@, i + 1, streams@.len() as int);
                let extra = match opt_chars(s.handler_name) {
                    Some(h) => ", handler '"@ + h + "'"@,
                    None => Seq::<char>::empty(),
                };
                assert(out@ =~= stream_words(*s) + extra + " is not MP4-copy-compatible"@);
            }
            return Some(out);
        }
        i = i + 1;
    }
    None
}

proof fn lemma_first_bad_mp4_stays(streams: Seq<StreamInfo>, a: int, b: int)
    requires
        0 <= a <= b,
        first_bad_mp4(streams, a) is Some,
    ensures
        first_bad_mp4(streams, b) == first_bad_mp4(streams, a),
    decreases b - a,
{
    if b > a {
        lemma_first_bad_mp4_stays(streams, a, b - 1);
    }
}

proof fn lemma_first_bad_mkv_stays(streams: Seq<StreamInfo>, a: int, b: int)
    requires
        0 <= a <= b,
        first_bad_mkv(streams, a) is Some,
    ensures
        first_bad_mkv(streams, b) == first_bad_mkv(streams, a),
    decreases b - a,
{
    if b > a {
        lemma_first_bad_mkv_stays(streams, a, b - 1);
    }
}

/// The first stream, other than the primary video, that Matroska cannot be
/// trusted to carry (anything but video, audio and subtitles), described for
/// the user; none when every one can.
pub fn matroska_incompatible_stream_reason(streams: &Vec<StreamInfo>) -> (r: Option<String>)
    ensures
        match first_bad_mkv(streams@, streams@.len() as int) {
            Some(i) => r matches Some(m) && m@ == mkv_reason_text(streams@[i]),
            None => r is None,
        },
{
    let mut seen_primary_video = false;
    let mut i: usize = 0;
    while i < streams.len()
        invariant
            i <= streams.len(),
            seen_primary_video == (first_video_before(streams@, i as int) is Some),
            first_bad_mkv(streams@, i as int) is None,
        decreases streams.len() - i,
    {
        let s = &streams[i];
        let t = s.codec_type.as_str();
        let is_video = str_eq(t, "video");
        if is_video && !seen_primary_video {
            seen_primary_video = true;
        } else if !(is_video || str_eq(t, "audio") || str_eq(t, "subtitle")) {
            let mut out = describe_stream(s);
            out.append(" is not conservatively Matroska-copy-compatible");
            proof {
                assert(first_bad_mkv(streams@, i + 1) == Some(i as int));
                lemma_first_bad_mkv_stays(streams@, i + 1, streams@.len() as int);
            }
            return Some(out);
        }
        i = i + 1;
    }
    None
}

/// Chooses the container: MP4 when every copied stream fits, otherwise
/// Matroska if the run allows the fallback and Matroska can carry them all.
pub fn select_output_container(output_format: OutputFormat, streams: &Vec<StreamInfo>) -> (r: Result<
    OutputContainer,
    String,
>)
    ensures
        match first_bad_mp4(streams@, streams@.len() as int) {
            None => r == Ok::<OutputContainer, String>(OutputContainer::Mp4),
            Some(i) => if output_format == OutputFormat::Mp4 {
                r matches Err(e) && e@ == mp4_reason_text(streams@[i])
            } else {
                match first_bad_mkv(streams@, streams@.len() as int) {
                    None => r == Ok::<OutputContainer, String>(OutputContainer::Mkv),
                    Some(j) => r matches Err(e) && e@ == mp4_reason_text(streams@[i])
                        + "; MKV fallback is also unsafe: "@ + mkv_reason_text(streams@[j]),
                }
            },
        },
{
    let mp4_reason = match mp4_incompatible_stream_reason(streams) {
        None => {
            return Ok(OutputContainer::Mp4);
        },
        Some(reason) => reason,
    };
    if output_format == OutputFormat::Mp4 {
        return Err(mp4_reason);
    }
    match matroska_incompatible_stream_reason(streams) {
        Some(reason) => {
            let mut out = mp4_reason;
            out.append("; MKV fallback is also unsafe: ");
            out.append(reason.as_str());
            Err(out)
        },
        None => Ok(OutputContainer::Mkv),
    }
}

/// The arguments that map exactly the probed streams, by their actual
/// indexes: `-map 0:I` for each, and never a broad map.
pub open spec fn map_args(indexes: Seq<usize>) -> Seq<Seq<char>>
    decreases indexes.len(),
{
    if indexes.len() == 0 {
        Seq::empty()
    } else {
        map_args(indexes.drop_last()) + seq!["-map"@, "0:"@ + decimal(indexes.last() as nat)]
    }
}

/// Builds explicit stream mappings from the probed stream indexes.
pub fn stream_map_args(stream_indexes: &Vec<usize>) -> (r: Vec<String>)
    ensures
        views(r@) == map_args(stream_indexes@),
        r@.len() == 2 * stream_indexes@.len(),
{
    let mut args: Vec<String> = Vec::new();
    let mut i: usize = 0;
    assert(views(args@) =~= map_args(stream_indexes@.subrange(0, 0)));
    while i < stream_indexes.len()
        invariant
            i <= stream_indexes.len(),
            views(args@) == map_args(stream_indexes@.subrange(0, i as int)),
            args@.len() == 2 * i,
        decreases stream_indexes.len() - i,
    {
        let ghost prev = stream_indexes@.subrange(0, i as int);
        let ghost next = stream_indexes@.subrange(0, i + 1);
        assert(next.drop_last() =~= prev);
        let ghost before = views(args@);
        let map = copy_str("-map");
        let mut target = copy_str("0:");
        let n = decimal_string(stream_indexes[i] as u64);
        target.append(n.as_str());
        let ghost mv = map@;
        let ghost tv = target@;
        args.push(map);
        args.push(target);
        assert(views(args@) =~= before + seq![mv, tv]);
        i = i + 1;
    }
    assert(stream_indexes@.subrange(0, stream_indexes@.len() as int) =~= stream_indexes@);
    args
}

/// The type and codec of a stream, which a converted file must keep.
#[derive(Debug, Clone, PartialEq, Eq)]
pub struct StreamSignature {
    pub codec_type: String,
    pub codec_name: String,
}

impl StreamSignature {
    /// The signature of a probed stream.
    pub fn of(stream: &StreamInfo) -> (r: Self)
        ensures
            r.codec_type@ == stream.codec_type@,
            r.codec_name@ == stream.codec_name@,
    {
        StreamSignature {
            codec_type: stream.codec_type.clone(),
            codec_name: stream.codec_name.clone(),
        }
    }
}

/// Why an output's streams do not match its source's, checking streams in
/// order from `i`, or none when they match. The first video stream must be
/// in the target codec; every other stream must keep its codec.
pub open spec fn signature_error_from(
    source: Seq<StreamSignature>,
    output: Seq<StreamInfo>,
    path: Seq<char>,
    codec: TargetCodec,
    i: int,
    seen_video: bool,
) -> Option<Seq<char>>
    decreases source.len() - i,
{
    if i < 0 || i >= source.len() || i >= output.len() {
        None
    } else if source[i].codec_type@ != output[i].codec_type@ {
        Some(
            "output stream #"@ + decimal(i as nat) + " type changed from "@ + source[i].codec_type@
                + " to "@ + output[i].codec_type@ + ": "@ + path,
        )
    } else if source[i].codec_type@ == "video"@ && !seen_video {
        if !eq_ignore_case(output[i].codec_name@, codec.wire_name()) {
            Some(
                "the converted video stream is "@ + output[i].codec_name@ + ", not the "@
                    + codec.wire_name() + " that was asked for: "@ + path,
            )
        } else {
            signature_error_from(source, output, path, codec, i + 1, true)
        }
    } else if source[i].codec_name@ != output[i].codec_name@ {
        Some(
            "output stream #"@ + decimal(i as nat) + " codec changed from "@ + source[i].codec_name@
                + " to "@ + output[i].codec_name@ + ": "@ + path,
        )
    } else {
        signature_error_from(source, output, path, codec, i + 1, seen_video)
    }
}

pub open spec fn signature_error(
    source: Seq<StreamSignature>,
    output: Seq<StreamInfo>,
    path: Seq<char>,
    codec: TargetCodec,
) -> Option<Seq<char>> {
    if output.len() != source.len() {
        Some(
            "output stream count changed from "@ + decimal(source.len()) + " to "@ + decimal(
                output.len(),
            ) + ": "@ + path,
        )
    } else {
        signature_error_from(source, output, path, codec, 0, false)
    }
}

/// Checks that a converted file carries the same streams as its source, in
/// the same order and with the same codecs except for the one video stream
/// that was converted.
pub fn stream_signature_validation_error(
    source: &Vec<StreamSignature>,
    output: &Vec<StreamInfo>,
    path: &str,
    codec: TargetCodec,
) -> (r: Option<String>)
    ensures
        match signature_error(source@, output@, path@, codec) {
            Some(e) => r matches Some(m) && m@ == e,
            None => r is None,
        },
{
    if output.len() != source.len() {
        let mut out = copy_str("output stream count changed from ");
        let a = decimal_string(source.len() as u64);
        out.append(a.as_str());
        out.append(" to ");
        let b = decimal_string(output.len() as u64);
        out.append(b.as_str());
        out.append(": ");
        out.append(path);
        return Some(out);
    }
    let mut seen_first_video = false;
    let mut i: usize = 0;
    while i < source.len()
        invariant
            i <= source.len(),
            source@.len() == output@.len(),
            signature_error(source@, output@, path@, codec) == signature_error_from(
                source@,
                output@,
                path@,
                codec,
                i as int,
                seen_first_video,
            ),
        decreases source.len() - i,
    {
        let s = &source[i];
        let o = &output[i];
        if !str_eq(s.codec_type.as_str(), o.codec_type.as_str()) {
            let mut out = copy_str("output stream #");
            let n = decimal_string(i as u64);
            out.append(n.as_str());
            out.append(" type changed from ");
            out.append(s.codec_type.as_str());
            out.append(" to ");
            out.append(o.codec_type.as_str());
            out.append(": ");
            out.append(path);
            return Some(out);
        }
        if str_eq(s.codec_type.as_str(), "video") && !seen_first_video {
            seen_first_video = true;
            if !eq_ignore_case_str(o.codec_name.as_str(), codec.ffprobe_name()) {
                let mut out = copy_str("the converted video stream is ");
                out.append(o.codec_name.as_str());
                out.append(", not the ");
                out.append(codec.ffprobe_name());
                out.append(" that was asked for: ");
                out.append(path);
                return Some(out);
            }
            i = i + 1;
            continue;
        }
        if !str_eq(s.codec_name.as_str(), o.codec_name.as_str()) {
            let mut out = copy_str("output stream #");
            let n = decimal_string(i as u64);
            out.append(n.as_str());
            out.append(" codec changed from ");
            out.append(s.codec_name.as_str());
            out.append(" to ");
            out.append(o.codec_name.as_str());
            out.append(": ");
            out.append(path);
            return Some(out);
        }
        i = i + 1;
    }
    None
}

/// Whether a source stream before position `i` is a video stream.
pub open spec fn video_before(source: Seq<StreamSignature>, i: int) -> bool {
    exists|j: int| 0 <= j < i && #[trigger] source[j].codec_type@ == "video"@
}

/// What the converted stream at `k` must satisfy: the same type as its
/// source; the codec the run asked for, if it is the first video stream;
/// otherwise the very codec it had.
pub open spec fn stream_kept(
    source: Seq<StreamSignature>,
    output: Seq<StreamInfo>,
    codec: TargetCodec,
    k: int,
) -> bool {
    &&& source[k].codec_type@ == output[k].codec_type@
    &&& (source[k].codec_type@ == "video"@ && !video_before(source, k)) ==> eq_ignore_case(
        output[k].codec_name@,
        codec.wire_name(),
    )
    &&& (source[k].codec_type@ != "video"@ || video_before(source, k)) ==> source[k].codec_name@
        == output[k].codec_name@
}

proof fn lemma_signature_from(
    source: Seq<StreamSignature>,
    output: Seq<StreamInfo>,
    path: Seq<char>,
    codec: TargetCodec,
    i: int,
    seen: bool,
)
    requires
        source.len() == output.len(),
        0 <= i <= source.len(),
        seen == video_before(source, i),
    ensures
        (signature_error_from(source, output, path, codec, i, seen) is None) == (forall|k: int|
            i <= k < source.len() ==> #[trigger] stream_kept(source, output, codec, k)),
    decreases source.len() - i,
{
    if i < source.len() {
        let next_seen = seen || source[i].codec_type@ == "video"@;
        assert(next_seen == video_before(source, i + 1)) by {
            if source[i].codec_type@ == "video"@ {
                assert(source[i].codec_type@ == "video"@);
            }
            if video_before(source, i + 1) && !seen {
                let j = choose|j: int| 0 <= j < i + 1 && #[trigger] source[j].codec_type@ == "video"@;
                assert(j == i);
            }
        }
        lemma_signature_from(source, output, path, codec, i + 1, next_seen);
        if (forall|k: int| i + 1 <= k < source.len() ==> #[trigger] stream_kept(source, output, codec, k))
            && stream_kept(source, output, codec, i) {
            assert forall|k: int| i <= k < source.len() implies #[trigger] stream_kept(
                source,
                output,
                codec,
                k,
            ) by {
                if k > i {
                    assert(stream_kept(source, output, codec, k));
                }
            }
        }
        if forall|k: int| i <= k < source.len() ==> #[trigger] stream_kept(source, output, codec, k) {
            assert(stream_kept(source, output, codec, i));
        }
    }
}

/// A converted file passes the stream check exactly when it has as many
/// streams as its source and each keeps its place and type, the first video
/// stream is in the codec the run asked for, and every other stream, a
/// second video stream included, keeps the codec it had. In particular a
/// later stream whose codec changed is always reported.
pub proof fn stream_check_accepts_only_kept_codecs(
    source: Seq<StreamSignature>,
    output: Seq<StreamInfo>,
    path: Seq<char>,
    codec: TargetCodec,
)
    ensures
        (signature_error(source, output, path, codec) is None) == (source.len() == output.len()
            && forall|k: int| 0 <= k < source.len() ==> #[trigger] stream_kept(source, output, codec, k)),
        forall|i: int|
            0 <= i < source.len() && i < output.len() && (source[i].codec_type@ != "video"@
                || video_before(source, i)) && #[trigger] source[i].codec_name@ != output[i].codec_name@
                ==> signature_error(source, output, path, codec) is Some,
{
    if source.len() == output.len() {
        assert(!video_before(source, 0));
        lemma_signature_from(source, output, path, codec, 0, false);
    }
    assert forall|i: int|
        0 <= i < source.len() && i < output.len() && (source[i].codec_type@ != "video"@
            || video_before(source, i)) && #[trigger] source[i].codec_name@ != output[i].codec_name@
        implies signature_error(source, output, path, codec) is Some by {
        if source.len() == output.len() {
            assert(!stream_kept(source, output, codec, i));
        }
    }
}

/// Checks the streams ffprobe found in a converted file against its source.
pub fn validate_stream_signature(
    output_streams: &Vec<StreamInfo>,
    path: &str,
    source: &Vec<StreamSignature>,
    codec: TargetCodec,
) -> (r: Result<(), String>)
    ensures
        match signature_error(source@, output_streams@, path@, codec) {
            Some(e) => r matches Err(m) && m@ == e,
            None => r is Ok,
        },
{
    match stream_signature_validation_error(source, output_streams, path, codec) {
        Some(e) => Err(e),
        None => Ok(()),
    }
}

/// Whether a stream could be a QuickTime chapter carrier: a `data` stream of
/// codec `bin_data`, tagged `text` in any case, with a track ID.
pub fn is_chapter_carrier_candidate(stream: &StreamInfo) -> (r: bool)
    ensures
        r == (stream.codec_type@ == "data"@ && stream.codec_name@ == "bin_data"@ && (match opt_chars(
            stream.codec_tag_string,
        ) {
            Some(t) => eq_ignore_case(t, "text"@),
            None => false,
        }) && stream.track_id is Some),
{
    str_eq(stream.codec_type.as_str(), "data") && str_eq(stream.codec_name.as_str(), "bin_data")
        && match &stream.codec_tag_string {
        Some(tag) => eq_ignore_case_str(tag.as_str(), "text"),
        None => false,
    } && stream.track_id.is_some()
}

} // verus!
