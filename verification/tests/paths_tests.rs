use myvidcomp::paths::{
    has_added_suffix, is_candidate_video_extension, is_candidate_video_path,
    is_temp_output_path, with_added_suffix, CandidateItem, container_output_path, temp_output_path,
    is_pending_review_of, is_review_sidecar, is_cached_temp_of,
};
use myvidcomp::streams::OutputContainer;
use myvidcomp::progress::{phases, Phase, RunProgress};

#[test]
fn filters_candidate_video_paths_by_extension_only() {
    assert!(is_candidate_video_path("clip.MP4"));
    assert!(is_candidate_video_path("movie.mkv"));
    assert!(!is_candidate_video_path("cover.jpg"));
    assert!(!is_candidate_video_path("README"));
}

#[test]
fn candidate_paths_in_folders_and_bare_extensions() {
    assert!(is_candidate_video_path("/videos/clip.MKV"));
    assert!(is_candidate_video_path("/videos/clip.mp4"));
    assert!(!is_candidate_video_path("/videos/notes.txt"));
    assert!(!is_candidate_video_path("/videos/noextension"));
    assert!(is_candidate_video_extension("webm"));
}

#[test]
fn suffixes_are_added_to_the_whole_name() {
    assert_eq!(with_added_suffix("/tmp/a.mp4", ".part"), "/tmp/a.mp4.part");
    assert!(has_added_suffix("/tmp/a.mp4.part", ".part"));
    assert!(!has_added_suffix("/tmp/a.mp4", ".part"));
}

#[test]
fn converted_files_get_the_mp4_name() {
    let item = CandidateItem::new("/videos/clip.mkv".to_string());
    assert_eq!(item.output_path(), "/videos/clip.mp4");
}

#[test]
fn recognises_temporary_outputs() {
    assert!(is_temp_output_path("/tmp/.myvidcomp-clip.tmp.mp4"));
    assert!(!is_temp_output_path("/tmp/clip.mp4"));
}

#[test]
fn counts_finished_candidates() {
    let mut progress = RunProgress::new(2);
    assert_eq!(progress.counts(), (0, 2));
    progress.finish_candidate();
    progress.finish_candidate();
    assert_eq!(progress.counts(), (2, 2));
    assert_eq!(phases().first().copied(), Some(Phase::Choosing));
    assert_eq!(Phase::Measuring.label(), "measuring quality");
}

#[test]
fn converted_files_take_the_container_extension() {
    assert_eq!(container_output_path("/videos/clip.avi", OutputContainer::Mp4), "/videos/clip.mp4");
    assert_eq!(container_output_path("/videos/clip.avi", OutputContainer::Mkv), "/videos/clip.mkv");
    assert_eq!(container_output_path("/videos/clip.mp4", OutputContainer::Mp4), "/videos/clip.mp4");
}

#[test]
fn temporary_outputs_are_hidden_and_stamped() {
    let beside = temp_output_path("/videos/clip.avi", None, 42, OutputContainer::Mp4);
    assert_eq!(beside, "/videos/.myvidcomp-clip-42.tmp.mp4");
    assert!(is_temp_output_path(&beside));
    let elsewhere = temp_output_path("/videos/clip.avi", Some("/scratch"), 7, OutputContainer::Mkv);
    assert_eq!(elsewhere, "/scratch/.myvidcomp-clip-7.tmp.mkv");
    assert!(is_temp_output_path(&elsewhere));
}

#[test]
fn recognises_a_pending_review_beside_its_source() {
    assert!(is_pending_review_of("/videos/clip.avi", "clip.myvidcomp-review.mp4"));
    assert!(!is_pending_review_of("/videos/clip.avi", "clip.myvidcomp-review.mp4.json"));
    assert!(!is_pending_review_of("/videos/clip.avi", "other.myvidcomp-review.mp4"));
    assert!(!is_pending_review_of("/videos/clip.avi", "clip.mp4"));
}

#[test]
fn recognises_review_sidecars() {
    assert!(is_review_sidecar("/videos/clip.myvidcomp-review.mp4.json"));
    assert!(!is_review_sidecar("/videos/clip.myvidcomp-review.mp4"));
    assert!(!is_review_sidecar("/videos/clip.json"));
}

#[test]
fn recognises_earlier_temporary_outputs() {
    assert!(is_cached_temp_of("/videos/clip.avi", ".myvidcomp-clip-123.tmp.mp4"));
    assert!(is_cached_temp_of("/videos/clip.avi", ".pvac-clip-9.tmp.mkv"));
    assert!(!is_cached_temp_of("/videos/clip.avi", ".myvidcomp-other-123.tmp.mp4"));
    assert!(!is_cached_temp_of("/videos/clip.avi", ".myvidcomp-clip-123.mp4"));
    assert!(!is_cached_temp_of("/videos/clip.avi", "clip.mp4"));
}
