use srtify::media::{classify_extension, eq_ignore_case, is_video_or_audio, media_kind, MediaKind};

#[test]
fn classifies_video_audio_and_other() {
    assert_eq!(is_video_or_audio("movie.mkv"), Some("video"));
    assert_eq!(is_video_or_audio("track.flac"), Some("audio"));
    assert_eq!(is_video_or_audio("notes.txt"), None);
}

#[test]
fn classification_ignores_case() {
    assert_eq!(is_video_or_audio("/tmp/CLIP.MP4"), Some("video"));
    assert_eq!(media_kind("Song.Wav"), Some(MediaKind::Audio));
    assert_eq!(classify_extension("WebM"), Some(MediaKind::Video));
    assert_eq!(classify_extension("m4a"), Some(MediaKind::Audio));
}

#[test]
fn paths_without_known_extension() {
    assert_eq!(is_video_or_audio("README"), None);
    assert_eq!(is_video_or_audio(".mp4"), None);
    assert_eq!(is_video_or_audio("dir.mp4/file"), None);
    assert_eq!(classify_extension(""), None);
    assert_eq!(classify_extension("mp44"), None);
}

#[test]
fn the_extension_is_taken_from_the_path() {
    assert_eq!(media_kind("archive.mp3.txt"), None);
    assert_eq!(media_kind("archive.txt.mp3"), Some(MediaKind::Audio));
}

#[test]
fn case_folding_is_ascii_only() {
    assert!(eq_ignore_case("MkV", "mkv"));
    assert!(!eq_ignore_case("mkv", "mk"));
    assert!(!eq_ignore_case("[", "{"));
    assert_eq!(MediaKind::Video.as_str(), "video");
    assert_eq!(MediaKind::Audio.as_str(), "audio");
}
