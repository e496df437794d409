use myvidcomp::paths::{is_review_artifact, kept_both_path, review_output_path, review_sidecar_path};
use myvidcomp::review::{
    deviations, field, number, parse_review_decision, review_list_json, sidecar_item,
    sidecar_json, Deviation, ReviewDecision, ReviewItem,
};

fn sample_item() -> ReviewItem {
    ReviewItem {
        original_path: "/videos/clip.mkv".to_string(),
        review_path: "/videos/clip.myvidcomp-review.mp4".to_string(),
        sidecar_path: "/videos/clip.myvidcomp-review.mp4.json".to_string(),
        final_path: "/videos/clip.mp4".to_string(),
        original_bytes: 10_000_000,
        review_bytes: 4_000_000,
        encoder: "libsvtav1".to_string(),
        codec: "av1".to_string(),
        quality: "crf 30".to_string(),
        score: Some(9312),
        target: 9500,
        deviations: vec![
            Deviation::new("color_range", "AV1 cannot record \"it\""),
            Deviation::new("audio", "tab\there"),
        ],
    }
}

#[test]
fn builds_review_names() {
    let review = review_output_path("/videos/clip.mp4");
    assert_eq!(review, "/videos/clip.myvidcomp-review.mp4");
    assert_eq!(
        review_sidecar_path(&review),
        "/videos/clip.myvidcomp-review.mp4.json"
    );
    assert!(is_review_artifact(&review));
    assert!(!is_review_artifact("/videos/clip.mp4"));
}

#[test]
fn parses_decisions() {
    assert_eq!(
        parse_review_decision("keep-new"),
        Ok(ReviewDecision::KeepNew)
    );
    assert_eq!(
        parse_review_decision("keep_original"),
        Ok(ReviewDecision::KeepOriginal)
    );
    assert_eq!(parse_review_decision("both"), Ok(ReviewDecision::KeepBoth));
    assert!(parse_review_decision("delete").is_err());
}

#[test]
fn keeping_both_renames_the_converted_file() {
    assert_eq!(kept_both_path("/videos/clip.mp4"), "/videos/clip.myvidcomp.mp4");
}

#[test]
fn a_sidecar_reads_back_what_was_written() {
    let item = sample_item();
    let text = sidecar_json(&item);
    let read = sidecar_item(&text, "/videos/clip.myvidcomp-review.mp4.json").unwrap();
    assert_eq!(read, item);
}

#[test]
fn a_sidecar_reads_back_escaped_text() {
    let mut item = sample_item();
    item.original_path = "C:\\Videos\\\"old\" clip.mkv".to_string();
    item.review_path = "C:\\Videos\\clip.myvidcomp-review.mp4".to_string();
    item.final_path = "C:\\Videos\\clip.mp4".to_string();
    item.quality = "line one\nline two\r\tend\\".to_string();
    item.deviations = vec![Deviation::new("kind\\with\"quote", "\"review_path\":\"elsewhere\"")];
    let text = sidecar_json(&item);
    let read = sidecar_item(&text, &item.sidecar_path).unwrap();
    assert_eq!(read, item);
}

#[test]
fn a_control_character_does_not_read_back() {
    let mut item = sample_item();
    item.encoder = "bell\u{7}".to_string();
    let text = sidecar_json(&item);
    assert!(text.contains("bell\\u0007"));
    let read = sidecar_item(&text, &item.sidecar_path).unwrap();
    assert_eq!(read.encoder, "bellu0007");
}

#[test]
fn a_sidecar_without_a_path_is_not_a_review() {
    assert_eq!(sidecar_item("{\"version\":1}", "/x.json"), None);
}

#[test]
fn reads_sidecar_fields() {
    let text = sidecar_json(&sample_item());
    assert_eq!(field(&text, "encoder"), Some("libsvtav1".to_string()));
    assert_eq!(number(&text, "target"), Some(9500));
    assert_eq!(number(&text, "missing"), None);
    assert_eq!(deviations(&text).len(), 2);
    assert_eq!(deviations(&text)[0].detail, "AV1 cannot record \"it\"");
    let mut scoreless = sample_item();
    scoreless.score = None;
    let text = sidecar_json(&scoreless);
    assert!(text.contains("\"score\":null"));
    assert_eq!(number(&text, "score"), None);
}

#[test]
fn lists_reviews_as_json() {
    assert_eq!(review_list_json(&Vec::new()), "{\"reviews\":[]}");
    let listing = review_list_json(&vec![sample_item()]);
    assert!(listing.starts_with(
        "{\"reviews\":[{\"sidecar_path\":\"/videos/clip.myvidcomp-review.mp4.json\",\"item\":{\"version\":1,"
    ));
    assert!(listing.ends_with("]}}]}"));
}
