use vstd::prelude::*;

use crate::text::same_text;

verus! {

/// Where the bundled converter lies, under the resources, for an operating
/// system; none for a system without one.
pub open spec fn converter_path(os: Seq<char>) -> Option<Seq<char>> {
    if os == "linux"@ {
        Some("bin/linux-x64/ffmpeg"@)
    } else if os == "macos"@ {
        Some("bin/macos-x64/ffmpeg"@)
    } else if os == "windows"@ {
        Some("bin/win32-x64/ffmpeg.exe"@)
    } else {
        None
    }
}

/// The converter's path for the operating system named `os`, or the
/// message `"Unsupported target OS: "` followed by the name.
pub fn ffmpeg_relative_path(os: &str) -> (r: Result<&'static str, String>)
    ensures
        r is Ok <==> converter_path(os@).is_some(),
        r matches Ok(p) ==> converter_path(os@) == Some(p@),
        r matches Err(m) ==> m@ == "Unsupported target OS: "@ + os@,
{
    if same_text(os, "linux") {
        Ok("bin/linux-x64/ffmpeg")
    } else if same_text(os, "macos") {
        Ok("bin/macos-x64/ffmpeg")
    } else if same_text(os, "windows") {
        Ok("bin/win32-x64/ffmpeg.exe")
    } else {
        let mut m = String::from_str("Unsupported target OS: ");
        m.append(os);
        Err(m)
    }
}

/// The converter's arguments: overwrite, read `input`, drop the video,
/// write 16-bit little-endian PCM at 16000 Hz on one channel to `output`.
pub open spec fn converter_args(input: Seq<char>, output: Seq<char>) -> Seq<Seq<char>> {
    seq![
        "-y"@,
        "-i"@,
        input,
        "-vn"@,
        "-acodec"@,
        "pcm_s16le"@,
        "-ar"@,
        "16000"@,
        "-ac"@,
        "1"@,
        output,
    ]
}

/// The argument list that converts `input` to canonical PCM in `output`.
pub fn ffmpeg_args(input: &str, output: &str) -> (r: Vec<String>)
    ensures
        r@.map_values(|s: String| s@) == converter_args(input@, output@),
{
    let r = vec![
        String::from_str("-y"),
        String::from_str("-i"),
        String::from_str(input),
        String::from_str("-vn"),
        String::from_str("-acodec"),
        String::from_str("pcm_s16le"),
        String::from_str("-ar"),
        String::from_str("16000"),
        String::from_str("-ac"),
        String::from_str("1"),
        String::from_str(output),
    ];
    assert(r@.map_values(|s: String| s@) =~= converter_args(input@, output@));
    r
}

/// The subtitle file of a run, in its output folder.
pub fn srt_path(folder: &str) -> (r: String)
    ensures
        r@ == folder@ + "/output.srt"@,
{
    let mut p = String::from_str(folder);
    p.append("/output.srt");
    p
}

/// The segment and word file of a run, beside its subtitle file.
pub fn json_path(folder: &str) -> (r: String)
    ensures
        r@ == folder@ + "/output.json"@,
{
    let mut p = String::from_str(folder);
    p.append("/output.json");
    p
}

} // verus!
