use myvidcomp::compare::{build_vmaf_args, build_vmaf_cuda_args};
use myvidcomp::options::HwAccel;
use myvidcomp::vmaf::VmafOptions;

fn options(subsample: u32, threads: u32) -> VmafOptions {
    VmafOptions { subsample, threads }
}

#[test]
fn builds_a_comparison_command() {
    let args = build_vmaf_args(
        "/tmp/out.mp4",
        "/videos/clip.mkv",
        Some("yuv420p"),
        1920,
        1080,
        options(5, 4),
        16,
        false,
        (None, None),
    );

    let joined = args.join(" ");
    let distorted = args.iter().position(|arg| arg == "/tmp/out.mp4").unwrap();
    let reference = args.iter().position(|arg| arg == "/videos/clip.mkv").unwrap();

    assert!(distorted < reference);
    assert!(joined.contains("n_threads=4"));
    assert!(joined.contains("n_subsample=5"));
    assert!(joined.contains("model=version=vmaf_v0.6.1"));
    assert!(joined.contains("setpts=PTS-STARTPTS"));
    assert!(joined.contains("[dist][ref]libvmaf"));
    assert!(!joined.contains("-hwaccel"));
    assert!(!joined.contains("-progress"));
    assert!(joined.ends_with("-f null -"));
}

#[test]
fn asks_for_progress_when_requested() {
    let args = build_vmaf_args(
        "/tmp/out.mp4",
        "/videos/clip.mkv",
        Some("yuv420p"),
        1920,
        1080,
        VmafOptions::default(),
        8,
        true,
        (None, None),
    );

    let joined = args.join(" ");
    assert!(joined.contains("-progress pipe:1"));
    assert!(joined.contains("-stats_period 1"));
    assert!(joined.contains("-loglevel info"));
    assert!(joined.contains("-nostats"));

    let progress = args.iter().position(|arg| arg == "-progress").unwrap();
    let first_input = args.iter().position(|arg| arg == "-i").unwrap();
    assert!(progress < first_input);
}

#[test]
fn puts_a_decoder_before_each_input() {
    let args = build_vmaf_args(
        "/tmp/out.mp4",
        "/videos/clip.mkv",
        Some("yuv420p"),
        1920,
        1080,
        VmafOptions::default(),
        8,
        false,
        (None, Some(HwAccel::D3d11va)),
    );

    let joined = args.join(" ");
    assert!(!joined.contains("-hwaccel_output_format"));
    assert_eq!(args.iter().filter(|arg| *arg == "-hwaccel").count(), 1);

    let accel = args.iter().position(|arg| arg == "-hwaccel").unwrap();
    let reference = args.iter().position(|arg| arg == "/videos/clip.mkv").unwrap();
    assert_eq!(accel + 2, reference - 1);

    let both = build_vmaf_args(
        "/tmp/out.mp4",
        "/videos/clip.mkv",
        Some("yuv420p"),
        1920,
        1080,
        VmafOptions::default(),
        8,
        false,
        (Some(HwAccel::Cuda), Some(HwAccel::Cuda)),
    );
    assert_eq!(both.iter().filter(|arg| *arg == "-hwaccel").count(), 2);
}

#[test]
fn builds_a_comparison_that_stays_on_the_card() {
    let args = build_vmaf_cuda_args(
        "/tmp/out.mp4",
        "/videos/clip.mkv",
        1920,
        1080,
        VmafOptions::default(),
        false,
    );

    let joined = args.join(" ");
    assert_eq!(
        args.iter().filter(|arg| *arg == "-hwaccel_output_format").count(),
        2
    );
    assert!(joined.contains("scale_cuda=format=yuv420p"));
    assert!(joined.contains("[dist][ref]libvmaf_cuda"));
    assert!(!joined.contains("n_threads"));
    assert!(joined.contains("n_subsample=5"));
    assert!(joined.ends_with("-f null -"));
}

#[test]
fn the_filter_is_the_same_either_way() {
    let filter_of = |accel| {
        let args = build_vmaf_args(
            "/tmp/out.mp4",
            "/videos/clip.mkv",
            Some("yuv420p10le"),
            3840,
            2160,
            VmafOptions::default(),
            8,
            false,
            accel,
        );
        let index = args.iter().position(|arg| arg == "-lavfi").unwrap();
        args[index + 1].clone()
    };

    assert_eq!(
        filter_of((None, None)),
        filter_of((Some(HwAccel::D3d11va), Some(HwAccel::Cuda)))
    );
}

#[test]
fn the_full_comparison_filter() {
    let args = build_vmaf_args(
        "a.mp4",
        "b.mkv",
        Some("yuv420p10le"),
        3840,
        2160,
        options(0, 0),
        12,
        false,
        (None, None),
    );
    assert_eq!(
        args,
        vec![
            "-hide_banner",
            "-nostdin",
            "-loglevel",
            "info",
            "-nostats",
            "-i",
            "a.mp4",
            "-i",
            "b.mkv",
            "-lavfi",
            "[0:v:0]settb=AVTB,setpts=PTS-STARTPTS,format=yuv420p10le[dist];[1:v:0]settb=AVTB,setpts=PTS-STARTPTS,format=yuv420p10le[ref];[dist][ref]libvmaf=model=version=vmaf_4k_v0.6.1:n_threads=12:n_subsample=1:shortest=1:ts_sync_mode=nearest",
            "-f",
            "null",
            "-",
        ]
    );
}
