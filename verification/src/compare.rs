//! The FFmpeg commands that compare a converted file with its source.
//!
//! Input 0 is the converted (distorted) file and input 1 the source
//! (reference): the filter is documented that way round and silently reports
//! a different number if they are swapped. Resetting the timebase and start
//! time on both keeps a source that does not begin at zero from scoring far
//! too low.
use vstd::prelude::*;
use crate::options::HwAccel;
use crate::text::{copy_str, decimal, decimal_string, owned_all, str_views, views};
use crate::vmaf::{comparison_format, comparison_pixel_format, model_for, VmafOptions};

verus! {

/// The switches that make FFmpeg report its progress on standard output
/// once a second.
pub open spec fn progress_flags() -> Seq<Seq<char>> {
    seq!["-progress"@, "pipe:1"@, "-stats_period"@, "1"@]
}

/// What every comparison starts with. `info` is what makes the filter print
/// its score line at all, and `-nostats` silences only FFmpeg's own status
/// line, which would otherwise be mixed into the text the score is read from.
pub open spec fn preamble(progress: bool) -> Seq<Seq<char>> {
    seq!["-hide_banner"@, "-nostdin"@, "-loglevel"@, "info"@, "-nostats"@] + if progress {
        progress_flags()
    } else {
        Seq::empty()
    }
}

/// The VMAF model for a picture size: the 4K model above 2560 pixels on the
/// long side or 1440 lines.
pub open spec fn model_name(width: u32, height: u32) -> Seq<char> {
    if (if width >= height {
        width
    } else {
        height
    }) > 2560 || height > 1440 {
        "vmaf_4k_v0.6.1"@
    } else {
        "vmaf_v0.6.1"@
    }
}

/// One input, with its own hardware decoder when it has one. The decoded
/// frames come back to ordinary memory, where the filter needs them.
pub open spec fn input_args(path: Seq<char>, accel: Option<HwAccel>) -> Seq<Seq<char>> {
    (match accel {
        Some(m) => seq!["-hwaccel"@, m.wire_name()],
        None => Seq::empty(),
    }) + seq!["-i"@, path]
}

/// The processor comparison's filter graph.
pub open spec fn cpu_filter(format: Seq<char>, model: Seq<char>, threads: nat, subsample: nat) -> Seq<
    char,
> {
    "[0:v:0]settb=AVTB,setpts=PTS-STARTPTS,format="@ + format
        + "[dist];[1:v:0]settb=AVTB,setpts=PTS-STARTPTS,format="@ + format
        + "[ref];[dist][ref]libvmaf=model=version="@ + model + ":n_threads="@ + decimal(threads)
        + ":n_subsample="@ + decimal(subsample) + ":shortest=1:ts_sync_mode=nearest"@
}

/// Frames compared out of every group: at least one.
pub open spec fn every(subsample: u32) -> nat {
    if subsample >= 1 {
        subsample as nat
    } else {
        1
    }
}

/// Worker threads: the setting, or the machine's count when it is zero.
pub open spec fn worker_threads(threads: u32, machine_threads: u32) -> nat {
    if threads == 0 {
        machine_threads as nat
    } else {
        threads as nat
    }
}

/// The processor comparison: both files decoded (each with its own decoder,
/// if any), converted to one pixel format both can reach, and scored.
pub open spec fn vmaf_args(
    distorted: Seq<char>,
    reference: Seq<char>,
    pix_fmt: Option<Seq<char>>,
    width: u32,
    height: u32,
    options: VmafOptions,
    machine_threads: u32,
    progress: bool,
    accel: (Option<HwAccel>, Option<HwAccel>),
) -> Seq<Seq<char>> {
    preamble(progress) + input_args(distorted, accel.0) + input_args(reference, accel.1) + seq![
        "-lavfi"@,
        cpu_filter(
            comparison_format(pix_fmt),
            model_name(width, height),
            worker_threads(options.threads, machine_threads),
            every(options.subsample),
        ),
        "-f"@,
        "null"@,
        "-"@,
    ]
}

fn push_input(args: &mut Vec<String>, path: &str, accel: Option<HwAccel>)
    ensures
        views(final(args)@) == views(old(args)@) + input_args(path@, accel),
{
    match accel {
        Some(m) => {
            args.push(copy_str("-hwaccel"));
            args.push(copy_str(m.as_str()));
        },
        None => {},
    }
    args.push(copy_str("-i"));
    args.push(copy_str(path));
    assert(views(args@) =~= views(old(args)@) + input_args(path@, accel));
}

fn opening(progress: bool) -> (r: Vec<String>)
    ensures
        views(r@) == preamble(progress),
{
    let mut args = owned_all(vec!["-hide_banner", "-nostdin", "-loglevel", "info", "-nostats"]);
    if progress {
        let more = owned_all(vec!["-progress", "pipe:1", "-stats_period", "1"]);
        crate::text::append_all(&mut args, &more);
    }
    assert(views(args@) =~= preamble(progress));
    args
}

/// Builds the processor comparison; see `vmaf_args`. `machine_threads` is
/// how many threads the machine offers, used when the options ask for zero.
pub fn build_vmaf_args(
    distorted: &str,
    reference: &str,
    pix_fmt: Option<&str>,
    width: u32,
    height: u32,
    options: VmafOptions,
    machine_threads: u32,
    progress: bool,
    accel: (Option<HwAccel>, Option<HwAccel>),
) -> (r: Vec<String>)
    ensures
        views(r@) == vmaf_args(
            distorted@,
            reference@,
            match pix_fmt {
                Some(f) => Some(f@),
                None => None,
            },
            width,
            height,
            options,
            machine_threads,
            progress,
            accel,
        ),
{
    let format = comparison_pixel_format(pix_fmt);
    let model = model_for(width, height);
    let threads = if options.threads == 0 {
        machine_threads
    } else {
        options.threads
    };
    let subsample = if options.subsample >= 1 {
        options.subsample
    } else {
        1
    };
    let mut filter = copy_str("[0:v:0]settb=AVTB,setpts=PTS-STARTPTS,format=");
    filter.append(format);
    filter.append("[dist];[1:v:0]settb=AVTB,setpts=PTS-STARTPTS,format=");
    filter.append(format);
    filter.append("[ref];[dist][ref]libvmaf=model=version=");
    filter.append(model);
    filter.append(":n_threads=");
    let t = decimal_string(threads as u64);
    filter.append(t.as_str());
    filter.append(":n_subsample=");
    let s = decimal_string(subsample as u64);
    filter.append(s.as_str());
    filter.append(":shortest=1:ts_sync_mode=nearest");

    let mut args = opening(progress);
    push_input(&mut args, distorted, accel.0);
    push_input(&mut args, reference, accel.1);
    args.push(copy_str("-lavfi"));
    args.push(filter);
    args.push(copy_str("-f"));
    args.push(copy_str("null"));
    args.push(copy_str("-"));
    assert(views(args@) =~= vmaf_args(
        distorted@,
        reference@,
        match pix_fmt {
            Some(f) => Some(f@),
            None => None,
        },
        width,
        height,
        options,
        machine_threads,
        progress,
        accel,
    ));
    args
}

/// The graphics-card comparison's filter graph: `scale_cuda` does on the
/// card what `format` does on the processor, and there are no worker
/// threads to set.
pub open spec fn cuda_filter(model: Seq<char>, subsample: nat) -> Seq<char> {
    "[0:v:0]settb=AVTB,setpts=PTS-STARTPTS,scale_cuda=format=yuv420p[dist];[1:v:0]settb=AVTB,setpts=PTS-STARTPTS,scale_cuda=format=yuv420p[ref];[dist][ref]libvmaf_cuda=model=version="@
        + model + ":n_subsample="@ + decimal(subsample) + ":shortest=1:ts_sync_mode=nearest"@
}

/// One input decoded on the card, with its frames left in graphics memory.
pub open spec fn cuda_input(path: Seq<char>) -> Seq<Seq<char>> {
    seq!["-hwaccel"@, "cuda"@, "-hwaccel_output_format"@, "cuda"@, "-i"@, path]
}

/// The comparison that stays on the graphics card from decode to score.
pub open spec fn vmaf_cuda_args(
    distorted: Seq<char>,
    reference: Seq<char>,
    width: u32,
    height: u32,
    options: VmafOptions,
    progress: bool,
) -> Seq<Seq<char>> {
    preamble(progress) + cuda_input(distorted) + cuda_input(reference) + seq![
        "-lavfi"@,
        cuda_filter(model_name(width, height), every(options.subsample)),
        "-f"@,
        "null"@,
        "-"@,
    ]
}

fn push_cuda_input(args: &mut Vec<String>, path: &str)
    ensures
        views(final(args)@) == views(old(args)@) + cuda_input(path@),
{
    args.push(copy_str("-hwaccel"));
    args.push(copy_str("cuda"));
    args.push(copy_str("-hwaccel_output_format"));
    args.push(copy_str("cuda"));
    args.push(copy_str("-i"));
    args.push(copy_str(path));
    assert(views(args@) =~= views(old(args)@) + cuda_input(path@));
}

/// Builds the graphics-card comparison; see `vmaf_cuda_args`.
pub fn build_vmaf_cuda_args(
    distorted: &str,
    reference: &str,
    width: u32,
    height: u32,
    options: VmafOptions,
    progress: bool,
) -> (r: Vec<String>)
    ensures
        views(r@) == vmaf_cuda_args(distorted@, reference@, width, height, options, progress),
{
    let model = model_for(width, height);
    let subsample = if options.subsample >= 1 {
        options.subsample
    } else {
        1
    };
    let mut filter = copy_str(
        "[0:v:0]settb=AVTB,setpts=PTS-STARTPTS,scale_cuda=format=yuv420p[dist];[1:v:0]settb=AVTB,setpts=PTS-STARTPTS,scale_cuda=format=yuv420p[ref];[dist][ref]libvmaf_cuda=model=version=",
    );
    filter.append(model);
    filter.append(":n_subsample=");
    let s = decimal_string(subsample as u64);
    filter.append(s.as_str());
    filter.append(":shortest=1:ts_sync_mode=nearest");

    let mut args = opening(progress);
    push_cuda_input(&mut args, distorted);
    push_cuda_input(&mut args, reference);
    args.push(copy_str("-lavfi"));
    args.push(filter);
    args.push(copy_str("-f"));
    args.push(copy_str("null"));
    args.push(copy_str("-"));
    assert(views(args@) =~= vmaf_cuda_args(distorted@, reference@, width, height, options, progress));
    args
}

} // verus!
