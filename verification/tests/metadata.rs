use media_manager_core::config::Config;
use media_manager_core::error::MediaManagerError;
use media_manager_core::metadata::{MediaMetadata, ProbeReport, ProbeStream};
use media_manager_core::renamer::StagedRename;

fn stream(kind: Option<&str>) -> ProbeStream {
    ProbeStream {
        codec_type: kind.map(|k| k.to_string()),
        index: None,
        width: None,
        height: None,
        codec_name: None,
        language: None,
        title: None,
    }
}

const REPORT: &str = r#"{
  "streams": [
    {"index": 0, "codec_name": "h264", "codec_type": "video", "width": 1920, "height": 1080},
    {"index": 1, "codec_name": "aac", "codec_type": "audio"},
    {"index": 2, "codec_name": "subrip", "codec_type": "subtitle",
     "tags": {"language": "eng", "title": "English"}},
    {"index": 3, "codec_type": "subtitle", "tags": {"language": "fra"}},
    {"codec_name": "x", "width": 5},
    {"codec_type": 7, "index": "four"}
  ],
  "format": {"filename": "a.mkv", "duration": "125.480000"}
}"#;

#[test]
fn report_is_read_from_json() {
    let report = ProbeReport::parse(REPORT.as_bytes()).unwrap();
    assert_eq!(report.duration.as_deref(), Some("125.480000"));
    assert_eq!(report.streams.len(), 6);
    let video = &report.streams[0];
    assert_eq!(video.codec_type.as_deref(), Some("video"));
    assert_eq!(video.index, Some(0));
    assert_eq!(video.width, Some(1920));
    assert_eq!(video.height, Some(1080));
    assert_eq!(video.codec_name.as_deref(), Some("h264"));
    assert!(video.language.is_none());
    let sub = &report.streams[2];
    assert_eq!(sub.codec_type.as_deref(), Some("subtitle"));
    assert_eq!(sub.index, Some(2));
    assert_eq!(sub.language.as_deref(), Some("eng"));
    assert_eq!(sub.title.as_deref(), Some("English"));
    assert!(report.streams[3].title.is_none());
    assert!(report.streams[4].codec_type.is_none());
    assert_eq!(report.streams[4].width, Some(5));
    assert!(report.streams[5].codec_type.is_none());
    assert!(report.streams[5].index.is_none());
}

#[test]
fn report_without_streams_or_format() {
    let report = ProbeReport::parse(b"{}").unwrap();
    assert!(report.duration.is_none());
    assert!(report.streams.is_empty());
    let odd = ProbeReport::parse(br#"{"streams": {"a": 1}, "format": {"duration": 12}}"#).unwrap();
    assert!(odd.duration.is_none());
    assert!(odd.streams.is_empty());
    let list = ProbeReport::parse(b"[1, 2]").unwrap();
    assert!(list.streams.is_empty());
}

#[test]
fn report_that_is_no_json_is_refused() {
    match ProbeReport::parse(b"{\"streams\": [") {
        Err(MediaManagerError::Json(text)) => assert!(!text.is_empty()),
        _ => panic!("broken JSON was accepted"),
    }
    assert!(matches!(ProbeReport::parse(b""), Err(MediaManagerError::Json(_))));
}

#[test]
fn metadata_from_a_report() {
    let report = ProbeReport::parse(REPORT.as_bytes()).unwrap();
    let metadata = MediaMetadata::from_streams(Some("125".to_string()), &report.streams);
    assert_eq!(metadata.duration_seconds.as_deref(), Some("125"));
    assert_eq!(metadata.width, Some(1920));
    assert_eq!(metadata.height, Some(1080));
    assert_eq!(metadata.codec_name.as_deref(), Some("h264"));
    assert_eq!(metadata.subtitle_streams.len(), 2);
    assert_eq!(metadata.subtitle_streams[0].index, 2);
    assert_eq!(metadata.subtitle_streams[0].language.as_deref(), Some("eng"));
    assert_eq!(metadata.subtitle_streams[0].title.as_deref(), Some("English"));
    assert_eq!(metadata.subtitle_streams[0].codec, "subrip");
    assert_eq!(metadata.subtitle_streams[1].index, 3);
    assert_eq!(metadata.subtitle_streams[1].language.as_deref(), Some("fra"));
    assert!(metadata.subtitle_streams[1].title.is_none());
    assert_eq!(metadata.subtitle_streams[1].codec, "unknown");
}

#[test]
fn last_video_stream_decides() {
    let mut first = stream(Some("video"));
    first.width = Some(640);
    first.height = Some(480);
    first.codec_name = Some("mpeg4".to_string());
    let mut second = stream(Some("video"));
    second.width = Some(4294967296 + 7);
    let audio = stream(Some("audio"));
    let metadata = MediaMetadata::from_streams(None, &vec![first, second, audio, stream(None)]);
    assert!(metadata.duration_seconds.is_none());
    assert_eq!(metadata.width, Some(7));
    assert_eq!(metadata.height, None);
    assert_eq!(metadata.codec_name, None);
    assert!(metadata.subtitle_streams.is_empty());
}

#[test]
fn metadata_of_no_streams_is_empty() {
    let metadata = MediaMetadata::from_streams(None, &Vec::new());
    assert!(metadata.width.is_none());
    assert!(metadata.height.is_none());
    assert!(metadata.codec_name.is_none());
    assert!(metadata.subtitle_streams.is_empty());
    assert_eq!(metadata.resolution_label(), "N/AxN/A");
    assert_eq!(metadata.duration_label(), "0s");
    assert_eq!(metadata.codec_label(), "N/A");
}

#[test]
fn subtitle_without_index_gets_zero() {
    let metadata = MediaMetadata::from_streams(None, &vec![stream(Some("subtitle"))]);
    assert_eq!(metadata.subtitle_streams.len(), 1);
    assert_eq!(metadata.subtitle_streams[0].index, 0);
    assert_eq!(metadata.subtitle_streams[0].codec, "unknown");
}

#[test]
fn labels_of_known_metadata() {
    let metadata = MediaMetadata {
        duration_seconds: Some("61".to_string()),
        width: Some(1280),
        height: None,
        codec_name: Some("vp9".to_string()),
        subtitle_streams: Vec::new(),
    };
    assert_eq!(metadata.resolution_label(), "1280xN/A");
    assert_eq!(metadata.duration_label(), "61s");
    assert_eq!(metadata.codec_label(), "vp9");
}

#[test]
fn staged_rename_is_listed_with_its_position() {
    let staged = StagedRename { original_path: "/v/a.mp4".to_string(), new_path: "/v/b.mp4".to_string() };
    assert_eq!(staged.describe(1), "1. '/v/a.mp4' -> '/v/b.mp4'");
    assert_eq!(staged.describe(120), "120. '/v/a.mp4' -> '/v/b.mp4'");
    assert_eq!(staged.describe(0), "0. '/v/a.mp4' -> '/v/b.mp4'");
}

#[test]
fn config_text_is_normalized() {
    assert_eq!(Config::normalize("  {\r\n}\r\n \t"), "{\n}");
    assert_eq!(Config::normalize(""), "");
    assert_eq!(Config::normalize(" \n "), "");
    assert_eq!(Config::normalize("a b"), "a b");
    assert_eq!(Config::normalize("\u{a0}x\u{2003}"), "x");
    assert_eq!(Config::with_final_newline("{}\n\n"), "{}\n");
    assert_eq!(Config::with_final_newline("a\r\nb"), "a\nb\n");
    let _ = Config::default();
}

#[test]
fn report_parts_of_another_type_are_absent() {
    let report = ProbeReport::parse(
        br#"{"format": "mkv", "streams": [{"tags": "none", "width": -3, "height": 2.5, "index": 18446744073709551615, "codec_type": null}, 7]}"#,
    )
    .unwrap();
    assert!(report.duration.is_none());
    assert_eq!(report.streams.len(), 2);
    let first = &report.streams[0];
    assert!(first.language.is_none());
    assert!(first.title.is_none());
    assert!(first.width.is_none());
    assert!(first.height.is_none());
    assert_eq!(first.index, Some(18446744073709551615));
    assert!(first.codec_type.is_none());
    let second = &report.streams[1];
    assert!(second.codec_type.is_none());
    assert!(second.index.is_none());
}
