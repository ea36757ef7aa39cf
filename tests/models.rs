use srtify::model::{match_model, plan_fetch, DownloadProgress, FetchPlan};

fn joined(dir: &str, name: &str) -> String {
    std::path::Path::new(dir).join(name).to_string_lossy().to_string()
}

#[test]
fn known_model_resolves_to_download_and_cache() {
    let s = match_model("whisper-tiny", "/tmp/srtify");
    assert_eq!(s.logical_name, "whisper-tiny");
    assert_eq!(
        s.source_uri.as_deref(),
        Some("https://huggingface.co/ggerganov/whisper.cpp/resolve/main/ggml-tiny.en.bin")
    );
    assert_eq!(s.cache_path, joined("/tmp/srtify", "ggml-tiny.en.bin"));
    assert_eq!(s.cache_path, "/tmp/srtify/ggml-tiny.en.bin");
}

#[test]
fn every_known_model_has_its_file() {
    let cases = [
        ("whisper-base", "ggml-base.en.bin"),
        ("whisper-tiny", "ggml-tiny.en.bin"),
        ("whisper-small", "ggml-small.en.bin"),
        ("whisper-medium", "ggml-medium.en.bin"),
        ("whisper-large-v1", "ggml-large-v1.bin"),
        ("whisper-large-v2", "ggml-large-v2.bin"),
        ("whisper-large-v3", "ggml-large-v3.bin"),
        ("whisper-large-v3-turbo", "ggml-large-v3-turbo.bin"),
    ];
    for (name, file) in cases {
        let s = match_model(name, "cache");
        let uri = format!("https://huggingface.co/ggerganov/whisper.cpp/resolve/main/{}", file);
        assert_eq!(s.source_uri.as_deref(), Some(uri.as_str()));
        assert_eq!(s.cache_path, joined("cache", file));
    }
}

#[test]
fn unknown_model_is_a_local_path() {
    let s = match_model("/models/custom.bin", "/tmp/srtify");
    assert_eq!(s.source_uri, None);
    assert_eq!(s.cache_path, "/models/custom.bin");
    let s = match_model("Whisper-Tiny", "/tmp/srtify");
    assert_eq!(s.source_uri, None);
    assert_eq!(s.cache_path, "Whisper-Tiny");
}

#[test]
fn resolving_twice_gives_the_same_spec() {
    for name in ["whisper-base", "whisper-large-v3-turbo", "other.bin"] {
        let a = match_model(name, "/tmp/x");
        let b = match_model(name, "/tmp/x");
        assert_eq!(a.logical_name, b.logical_name);
        assert_eq!(a.source_uri, b.source_uri);
        assert_eq!(a.cache_path, b.cache_path);
    }
}

#[test]
fn cached_model_needs_no_download() {
    let s = match_model("whisper-tiny", "/tmp/srtify");
    match plan_fetch(&s, true) {
        FetchPlan::UseCached(p) => assert_eq!(p, "/tmp/srtify/ggml-tiny.en.bin"),
        _ => panic!("a cached model must not be downloaded"),
    }
}

#[test]
fn missing_model_is_downloaded_into_the_cache() {
    let s = match_model("whisper-base", "/c");
    match plan_fetch(&s, false) {
        FetchPlan::Download { uri, path } => {
            assert_eq!(uri, "https://huggingface.co/ggerganov/whisper.cpp/resolve/main/ggml-base.en.bin");
            assert_eq!(path, "/c/ggml-base.en.bin");
        }
        _ => panic!("expected a download"),
    }
}

#[test]
fn local_model_is_used_in_place() {
    let s = match_model("my.bin", "/c");
    for exists in [true, false] {
        match plan_fetch(&s, exists) {
            FetchPlan::UseLocal(p) => assert_eq!(p, "my.bin"),
            _ => panic!("expected the local file"),
        }
    }
}

#[test]
fn download_progress_counts_bytes() {
    let mut p = DownloadProgress::new(200);
    assert_eq!(p.percent(), Some(0));
    p.record_chunk(50);
    p.record_chunk(49);
    assert_eq!(p.downloaded, 99);
    assert_eq!(p.percent(), Some(49));
    p.record_chunk(101);
    assert_eq!(p.percent(), Some(100));
    let mut u = DownloadProgress::new(0);
    u.record_chunk(10);
    assert_eq!(u.percent(), None);
    u.record_chunk(u64::MAX);
    assert_eq!(u.downloaded, u64::MAX);
}
