use vstd::prelude::*;

use crate::media::{kind_of_path, media_kind};

verus! {

/// The kinds of failure that end a run.
#[derive(Clone, Copy, Debug, PartialEq, Eq, Structural)]
pub enum ErrorKind {
    MissingSelection,
    PathNotFound,
    ModelUnavailable,
    AudioUnavailable,
    EngineFailure,
}

/// Where a run stands.
#[derive(Clone, Copy, Debug, PartialEq, Eq, Structural)]
pub enum Stage {
    Idle,
    SelectionLoaded,
    ModelReady,
    AudioReady,
    Transcribing,
    Complete,
    Failed(ErrorKind),
}

/// How the work of a stage went.
#[derive(Clone, Copy, Debug, PartialEq, Eq, Structural)]
pub enum Outcome {
    Succeeded,
    Failed(ErrorKind),
}

/// The stage that follows `s` once its work ended with `o`. Each stage but
/// the last moves on when its work succeeds and fails with the error
/// otherwise; writing the outputs cannot fail a run, so a transcribing run
/// always completes; a finished run stays where it is.
pub open spec fn next_stage(s: Stage, o: Outcome) -> Stage {
    match s {
        Stage::Complete => s,
        Stage::Failed(_) => s,
        Stage::Transcribing => Stage::Complete,
        _ => match o {
            Outcome::Failed(k) => Stage::Failed(k),
            Outcome::Succeeded => match s {
                Stage::Idle => Stage::SelectionLoaded,
                Stage::SelectionLoaded => Stage::ModelReady,
                Stage::ModelReady => Stage::AudioReady,
                _ => Stage::Transcribing,
            },
        },
    }
}

impl Stage {
    pub open spec fn is_finished(self) -> bool {
        self is Complete || self is Failed
    }

    /// The stage after this one, given how its work went.
    pub fn advance(self, o: Outcome) -> (r: Stage)
        ensures
            r == next_stage(self, o),
    {
        match self {
            Stage::Complete => self,
            Stage::Failed(_) => self,
            Stage::Transcribing => Stage::Complete,
            _ => match o {
                Outcome::Failed(k) => Stage::Failed(k),
                Outcome::Succeeded => match self {
                    Stage::Idle => Stage::SelectionLoaded,
                    Stage::SelectionLoaded => Stage::ModelReady,
                    Stage::ModelReady => Stage::AudioReady,
                    _ => Stage::Transcribing,
                },
            },
        }
    }
}

/// The stage reached from `s` after the outcomes `os`, one after the other.
pub open spec fn run_stages(s: Stage, os: Seq<Outcome>) -> Stage
    decreases os.len(),
{
    if os.len() == 0 {
        s
    } else {
        next_stage(run_stages(s, os.drop_last()), os.last())
    }
}

/// Stages run strictly in order: a run completes after exactly five steps
/// when its first four succeed, and the first failure among those four ends
/// it with that failure, which no later step changes.
pub proof fn lemma_stages_in_order(os: Seq<Outcome>)
    requires
        os.len() == 5,
    ensures
        (forall|i: int| 0 <= i < 4 ==> os[i] == Outcome::Succeeded) ==> run_stages(Stage::Idle, os)
            == Stage::Complete,
        forall|i: int, k: ErrorKind|
            0 <= i < 4 && os[i] == Outcome::Failed(k) && (forall|j: int|
                0 <= j < i ==> os[j] == Outcome::Succeeded) ==> run_stages(Stage::Idle, os)
                == Stage::Failed(k),
{
    assert(os.subrange(0, 5) =~= os);
    let p0 = os.subrange(0, 0);
    let p1 = os.subrange(0, 1);
    let p2 = os.subrange(0, 2);
    let p3 = os.subrange(0, 3);
    let p4 = os.subrange(0, 4);
    assert(p1.drop_last() =~= p0);
    assert(p2.drop_last() =~= p1);
    assert(p3.drop_last() =~= p2);
    assert(p4.drop_last() =~= p3);
    assert(os.drop_last() =~= p4);
    assert(run_stages(Stage::Idle, p0) == Stage::Idle);
    assert(run_stages(Stage::Idle, p1) == next_stage(Stage::Idle, os[0]));
    assert(run_stages(Stage::Idle, p2) == next_stage(run_stages(Stage::Idle, p1), os[1]));
    assert(run_stages(Stage::Idle, p3) == next_stage(run_stages(Stage::Idle, p2), os[2]));
    assert(run_stages(Stage::Idle, p4) == next_stage(run_stages(Stage::Idle, p3), os[3]));
    assert(run_stages(Stage::Idle, os) == next_stage(run_stages(Stage::Idle, p4), os[4]));
}

/// The model, media file and output folder of a run.
pub struct RunSelection {
    pub model: String,
    pub media_file: String,
    pub folder: String,
}

/// A failure of a run, with the message shown to its observers.
pub struct RunError {
    pub kind: ErrorKind,
    pub message: String,
}

/// Which chosen path a check is about.
#[derive(Clone, Copy, Debug, PartialEq, Eq, Structural)]
pub enum PathRole {
    MediaFile,
    OutputFolder,
    ModelFile,
}

pub open spec fn missing_text(role: PathRole) -> Seq<char> {
    match role {
        PathRole::ModelFile => "Model file not found"@,
        PathRole::MediaFile => "Media File not found"@,
        PathRole::OutputFolder => "Output Folder not found"@,
    }
}

fn missing_message(role: PathRole) -> (r: String)
    ensures
        r@ == missing_text(role),
{
    match role {
        PathRole::ModelFile => String::from_str("Model file not found"),
        PathRole::MediaFile => String::from_str("Media File not found"),
        PathRole::OutputFolder => String::from_str("Output Folder not found"),
    }
}

/// Checks that a run has all three of its choices: the first one missing,
/// in the order model, media file, folder, fails the run.
pub fn check_selection(model: Option<String>, file: Option<String>, folder: Option<String>) -> (r:
    Result<RunSelection, RunError>)
    ensures
        r is Ok <==> (model is Some && file is Some && folder is Some),
        r matches Ok(s) ==> s.model@ == model.unwrap()@ && s.media_file@ == file.unwrap()@
            && s.folder@ == folder.unwrap()@,
        r matches Err(e) ==> e.kind == ErrorKind::MissingSelection && e.message@ == missing_text(
            if model is None {
                PathRole::ModelFile
            } else if file is None {
                PathRole::MediaFile
            } else {
                PathRole::OutputFolder
            },
        ),
{
    match (model, file, folder) {
        (Some(m), Some(f), Some(d)) => Ok(RunSelection { model: m, media_file: f, folder: d }),
        (None, _, _) => Err(
            RunError {
                kind: ErrorKind::MissingSelection,
                message: missing_message(PathRole::ModelFile),
            },
        ),
        (Some(_), None, _) => Err(
            RunError {
                kind: ErrorKind::MissingSelection,
                message: missing_message(PathRole::MediaFile),
            },
        ),
        (Some(_), Some(_), None) => Err(
            RunError {
                kind: ErrorKind::MissingSelection,
                message: missing_message(PathRole::OutputFolder),
            },
        ),
    }
}

/// The message for a chosen path that does not exist.
pub open spec fn not_found_text(role: PathRole, path: Seq<char>) -> Seq<char> {
    missing_text(role) + " at path: "@ + path
}

/// Fails the run when a chosen path does not exist.
pub fn check_path(role: PathRole, path: &str, exists: bool) -> (r: Result<(), RunError>)
    ensures
        r is Ok <==> exists,
        r matches Err(e) ==> e.kind == ErrorKind::PathNotFound && e.message@ == not_found_text(
            role,
            path@,
        ),
{
    if exists {
        Ok(())
    } else {
        let mut m = missing_message(role);
        m.append(" at path: ");
        m.append(path);
        Err(RunError { kind: ErrorKind::PathNotFound, message: m })
    }
}

/// Whether the media file is converted to raw PCM before the engine reads
/// it: video and audio files are; a file of unknown kind is handed to the
/// engine as it is.
pub fn needs_conversion(media_file: &str) -> (r: bool)
    ensures
        r == kind_of_path(media_file@).is_some(),
{
    media_kind(media_file).is_some()
}

} // verus!
