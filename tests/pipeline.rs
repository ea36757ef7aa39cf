use srtify::config::AppState;
use srtify::pipeline::{check_path, check_selection, needs_conversion, ErrorKind, Outcome, PathRole, Stage};

#[test]
fn complete_selection_is_accepted() {
    let s = check_selection(Some("m".into()), Some("f".into()), Some("d".into())).ok().unwrap();
    assert_eq!((s.model.as_str(), s.media_file.as_str(), s.folder.as_str()), ("m", "f", "d"));
}

#[test]
fn first_missing_choice_is_reported() {
    let e = check_selection(None, None, Some("d".into())).err().unwrap();
    assert_eq!(e.kind, ErrorKind::MissingSelection);
    assert_eq!(e.message, "Model file not found");
    let e = check_selection(Some("m".into()), None, None).err().unwrap();
    assert_eq!(e.message, "Media File not found");
    let e = check_selection(Some("m".into()), Some("f".into()), None).err().unwrap();
    assert_eq!(e.message, "Output Folder not found");
}

#[test]
fn missing_path_is_reported_with_the_path() {
    assert!(check_path(PathRole::MediaFile, "/x", true).is_ok());
    let e = check_path(PathRole::OutputFolder, "/out", false).err().unwrap();
    assert_eq!(e.kind, ErrorKind::PathNotFound);
    assert_eq!(e.message, "Output Folder not found at path: /out");
    let e = check_path(PathRole::ModelFile, "m.bin", false).err().unwrap();
    assert_eq!(e.message, "Model file not found at path: m.bin");
}

#[test]
fn media_is_converted_when_its_kind_is_known() {
    assert!(needs_conversion("movie.mkv"));
    assert!(needs_conversion("track.flac"));
    assert!(!needs_conversion("raw.pcm"));
}

#[test]
fn stages_run_in_order() {
    let mut s = Stage::Idle;
    let order = [Stage::SelectionLoaded, Stage::ModelReady, Stage::AudioReady, Stage::Transcribing];
    for want in order {
        s = s.advance(Outcome::Succeeded);
        assert_eq!(s, want);
    }
    s = s.advance(Outcome::Failed(ErrorKind::EngineFailure));
    assert_eq!(s, Stage::Complete);
    assert_eq!(s.advance(Outcome::Failed(ErrorKind::AudioUnavailable)), Stage::Complete);
}

#[test]
fn a_failure_ends_the_run() {
    let s = Stage::SelectionLoaded.advance(Outcome::Failed(ErrorKind::ModelUnavailable));
    assert_eq!(s, Stage::Failed(ErrorKind::ModelUnavailable));
    assert_eq!(s.advance(Outcome::Succeeded), s);
    assert_eq!(
        Stage::AudioReady.advance(Outcome::Failed(ErrorKind::EngineFailure)),
        Stage::Failed(ErrorKind::EngineFailure)
    );
}

#[test]
fn only_one_run_at_a_time() {
    let mut st = AppState::new();
    assert!(!st.is_generating);
    assert!(st.model.is_empty() && st.media_file.is_empty() && st.output_dir.is_empty());
    assert!(st.try_begin_run());
    assert!(!st.try_begin_run());
    st.end_run();
    assert!(st.try_begin_run());
}
