use vstd::prelude::*;

verus! {

/// What a media file holds, judged by its extension.
#[derive(Clone, Copy, Debug, PartialEq, Eq, Structural)]
pub enum MediaKind {
    Video,
    Audio,
}

/// The extension of a path (what follows the last `.` of its file name),
/// as `std::path::Path::extension` finds it.
pub uninterp spec fn extension_of(path: Seq<char>) -> Option<Seq<char>>;

/// Relies on `std::path::Path::extension`: the extension of the path's file
/// name, or none. A path made from a `&str` is valid UTF-8, so `to_str`
/// only converts.
#[verifier::external_body]
fn path_extension(path: &str) -> (r: Option<String>)
    ensures
        r.is_some() == extension_of(path@).is_some(),
        r matches Some(e) ==> extension_of(path@) == Some(e@),
{
    match std::path::Path::new(path).extension() {
        Some(e) => e.to_str().map(String::from),
        None => None,
    }
}

pub open spec fn is_ascii_upper(c: char) -> bool {
    'A' <= c && c <= 'Z'
}

/// Two characters are equal up to ASCII case.
pub open spec fn same_char_ignoring_case(a: char, b: char) -> bool {
    a == b || (is_ascii_upper(a) && a as u32 + 32 == b as u32) || (is_ascii_upper(b) && b as u32
        + 32 == a as u32)
}

/// Two texts are equal up to ASCII case.
pub open spec fn same_ignoring_case(a: Seq<char>, b: Seq<char>) -> bool {
    a.len() == b.len() && forall|i: int| 0 <= i < a.len() ==> same_char_ignoring_case(a[i], b[i])
}

pub open spec fn is_video_ext(e: Seq<char>) -> bool {
    same_ignoring_case(e, "mp4"@) || same_ignoring_case(e, "mkv"@) || same_ignoring_case(e, "avi"@)
        || same_ignoring_case(e, "mov"@) || same_ignoring_case(e, "flv"@) || same_ignoring_case(
        e,
        "wmv"@,
    ) || same_ignoring_case(e, "webm"@)
}

pub open spec fn is_audio_ext(e: Seq<char>) -> bool {
    same_ignoring_case(e, "mp3"@) || same_ignoring_case(e, "wav"@) || same_ignoring_case(e, "flac"@)
        || same_ignoring_case(e, "aac"@) || same_ignoring_case(e, "ogg"@) || same_ignoring_case(
        e,
        "m4a"@,
    )
}

/// The kind of media that an extension names: video before audio, and none
/// for an extension in neither list.
pub open spec fn kind_of_ext(e: Seq<char>) -> Option<MediaKind> {
    if is_video_ext(e) {
        Some(MediaKind::Video)
    } else if is_audio_ext(e) {
        Some(MediaKind::Audio)
    } else {
        None
    }
}

pub open spec fn kind_of_path(path: Seq<char>) -> Option<MediaKind> {
    match extension_of(path) {
        Some(e) => kind_of_ext(e),
        None => None,
    }
}

pub open spec fn kind_name(k: MediaKind) -> Seq<char> {
    match k {
        MediaKind::Video => "video"@,
        MediaKind::Audio => "audio"@,
    }
}

impl MediaKind {
    /// The name of the kind: `"video"` or `"audio"`.
    pub fn as_str(&self) -> (r: &'static str)
        ensures
            r@ == kind_name(*self),
    {
        match self {
            MediaKind::Video => "video",
            MediaKind::Audio => "audio",
        }
    }
}

fn same_char_ci(a: char, b: char) -> (r: bool)
    ensures
        r == same_char_ignoring_case(a, b),
{
    let x = a as u32;
    let y = b as u32;
    x == y || ('A' <= a && a <= 'Z' && x + 32 == y) || ('A' <= b && b <= 'Z' && y + 32 == x)
}

/// Compares two texts up to ASCII case.
pub fn eq_ignore_case(a: &str, b: &str) -> (r: bool)
    ensures
        r == same_ignoring_case(a@, b@),
{
    let n = a.unicode_len();
    if n != b.unicode_len() {
        return false;
    }
    let mut i: usize = 0;
    while i < n
        invariant
            n == a@.len(),
            n == b@.len(),
            i <= n,
            forall|j: int| 0 <= j < i ==> same_char_ignoring_case(a@[j], b@[j]),
        decreases n - i,
    {
        if !same_char_ci(a.get_char(i), b.get_char(i)) {
            return false;
        }
        i = i + 1;
    }
    true
}

/// Classifies an extension, ignoring ASCII case: a known video extension
/// gives `Video`, a known audio extension `Audio`, any other none.
pub fn classify_extension(ext: &str) -> (r: Option<MediaKind>)
    ensures
        r == kind_of_ext(ext@),
{
    if eq_ignore_case(ext, "mp4") || eq_ignore_case(ext, "mkv") || eq_ignore_case(ext, "avi")
        || eq_ignore_case(ext, "mov") || eq_ignore_case(ext, "flv") || eq_ignore_case(ext, "wmv")
        || eq_ignore_case(ext, "webm") {
        Some(MediaKind::Video)
    } else if eq_ignore_case(ext, "mp3") || eq_ignore_case(ext, "wav") || eq_ignore_case(
        ext,
        "flac",
    ) || eq_ignore_case(ext, "aac") || eq_ignore_case(ext, "ogg") || eq_ignore_case(ext, "m4a") {
        Some(MediaKind::Audio)
    } else {
        None
    }
}

/// Classifies a media file by the extension of its path.
pub fn media_kind(file_path: &str) -> (r: Option<MediaKind>)
    ensures
        r == kind_of_path(file_path@),
{
    match path_extension(file_path) {
        Some(e) => classify_extension(e.as_str()),
        None => None,
    }
}

/// Classifies a media file by the extension of its path: `"video"`,
/// `"audio"`, or none for a path without a known extension.
pub fn is_video_or_audio(file_path: &str) -> (r: Option<&'static str>)
    ensures
        r.is_some() == kind_of_path(file_path@).is_some(),
        r matches Some(s) ==> s@ == kind_name(kind_of_path(file_path@).unwrap()),
{
    match media_kind(file_path) {
        Some(k) => Some(k.as_str()),
        None => None,
    }
}

} // verus!
