use myvidcomp::decode::Platform;
use myvidcomp::tools::{bundled_binary_names, platform_binary_name, push_binary_candidates};

#[test]
fn uses_unix_runtime_binary_names() {
    assert_eq!(platform_binary_name("ffmpeg", Platform::Other), "ffmpeg");
    assert_eq!(platform_binary_name("ffprobe", Platform::Other), "ffprobe");
    assert_eq!(bundled_binary_names("ffmpeg", Platform::Other), ["ffmpeg"]);
}

#[test]
fn uses_windows_runtime_binary_names() {
    assert_eq!(platform_binary_name("ffmpeg", Platform::Windows), "ffmpeg.exe");
    assert_eq!(platform_binary_name("ffprobe", Platform::Windows), "ffprobe.exe");
    assert_eq!(
        bundled_binary_names("ffmpeg", Platform::Windows),
        ["ffmpeg.exe", "ffmpeg"]
    );
}

#[test]
fn other_tools_keep_their_names() {
    assert_eq!(platform_binary_name("mkvmerge", Platform::Windows), "mkvmerge");
}

#[test]
fn candidates_are_joined_to_the_directory() {
    let mut found = Vec::new();
    let names = bundled_binary_names("ffmpeg", Platform::Windows);
    push_binary_candidates(&mut found, "/opt/tool", &names);
    assert_eq!(
        found,
        vec![
            "/opt/tool/ffmpeg.exe".to_string(),
            "/opt/tool/bin/ffmpeg.exe".to_string(),
            "/opt/tool/ffmpeg".to_string(),
            "/opt/tool/bin/ffmpeg".to_string()
        ]
    );
}
