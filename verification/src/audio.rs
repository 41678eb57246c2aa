//! Muxing an optional audio bed under a finished video: what ffmpeg is asked to do,
//! and the errors reported around it. Running ffmpeg and renaming files is the
//! caller's.
use vstd::prelude::*;
use crate::encode::{push_lit, strs};
use crate::error::{RenderError, RenderErrorView};
use crate::text::{decimal, str_string};

verus! {

/// `std::path::Path::with_extension` on a text path: the path with the extension of
/// its file name replaced by `ext` (or added).
pub uninterp spec fn path_with_extension(p: Seq<char>, ext: Seq<char>) -> Seq<char>;

/// Calls `std::path::Path::with_extension` and returns the result as text. The
/// contract claims only that the result is a function of the two texts; the rules of
/// the replacement are std's. An extension holding a path separator is left out, as
/// std may panic on it.
#[verifier::external_body]
fn with_extension(p: &str, ext: &str) -> (r: String)
    requires
        forall|i: int| 0 <= i < ext@.len() ==> ext@[i] != '/',
    ensures
        r@ == path_with_extension(p@, ext@),
{
    std::path::Path::new(p).with_extension(ext).to_string_lossy().into_owned()
}

/// The temporary file the mux writes before it replaces `output`.
pub fn mux_tmp_path(output: &str) -> (r: String)
    ensures
        r@ == path_with_extension(output@, "mux.tmp.mkv"@),
{
    proof {
        reveal_strlit("mux.tmp.mkv");
    }
    with_extension(output, "mux.tmp.mkv")
}

/// ffmpeg arguments that loop `audio` under the video stream of `video` (copied as
/// is), encode the audio as AAC at 192k, stop at the shorter stream and write `tmp`.
pub open spec fn mux_args_spec(audio: Seq<char>, video: Seq<char>, tmp: Seq<char>) -> Seq<Seq<char>> {
    seq![
        "-hide_banner"@,
        "-loglevel"@,
        "error"@,
        "-y"@,
        "-stream_loop"@,
        "-1"@,
        "-i"@,
        audio,
        "-i"@,
        video,
        "-map"@,
        "1:v:0"@,
        "-map"@,
        "0:a:0"@,
        "-c:v"@,
        "copy"@,
        "-c:a"@,
        "aac"@,
        "-b:a"@,
        "192k"@,
        "-shortest"@,
        tmp,
    ]
}

/// The `-map` selector of stream `kind` (`v` or `a`) number 0 of input `input`.
pub open spec fn stream_selector(input: nat, kind: char) -> Seq<char> {
    decimal(input) + seq![':', kind, ':', '0']
}

/// The mux reads exactly two inputs, the audio bed first (input 0, looped with
/// `-stream_loop -1`) and the video second (input 1); it takes the video stream from
/// the video's input and the audio stream from the audio's input, copies the video,
/// encodes the audio as AAC at 192k, stops at the shorter stream and writes `tmp` last.
pub proof fn law_mux_args(audio: Seq<char>, video: Seq<char>, tmp: Seq<char>)
    requires
        audio != "-i"@,
        video != "-i"@,
        tmp != "-i"@,
    ensures
        ({
            let a = mux_args_spec(audio, video, tmp);
            &&& a.len() == 22
            &&& forall|j: int| 0 <= j < a.len() && a[j] == "-i"@ ==> j == 6 || j == 8
            &&& a[4] == "-stream_loop"@ && a[5] == "-1"@
            &&& a[6] == "-i"@ && a[7] == audio
            &&& a[8] == "-i"@ && a[9] == video
            &&& a[10] == "-map"@ && a[11] == stream_selector(1, 'v')
            &&& a[12] == "-map"@ && a[13] == stream_selector(0, 'a')
            &&& a[14] == "-c:v"@ && a[15] == "copy"@
            &&& a[16] == "-c:a"@ && a[17] == "aac"@
            &&& a[18] == "-b:a"@ && a[19] == "192k"@
            &&& a[20] == "-shortest"@
            &&& a[21] == tmp
        }),
{
    reveal_strlit("1:v:0");
    reveal_strlit("0:a:0");
    reveal_strlit("-i");
    reveal_strlit("-hide_banner");
    reveal_strlit("-loglevel");
    reveal_strlit("error");
    reveal_strlit("-y");
    reveal_strlit("-stream_loop");
    reveal_strlit("-1");
    reveal_strlit("-map");
    reveal_strlit("-c:v");
    reveal_strlit("copy");
    reveal_strlit("-c:a");
    reveal_strlit("aac");
    reveal_strlit("-b:a");
    reveal_strlit("192k");
    reveal_strlit("-shortest");
    assert(decimal(1) =~= seq!['1']);
    assert(decimal(0) =~= seq!['0']);
    assert(stream_selector(1, 'v') =~= "1:v:0"@);
    assert(stream_selector(0, 'a') =~= "0:a:0"@);
    let a = mux_args_spec(audio, video, tmp);
    assert forall|j: int| 0 <= j < a.len() && a[j] == "-i"@ implies j == 6 || j == 8 by {
        if j != 6 && j != 8 && j != 7 && j != 9 && j != 21 {
            assert(a[j].len() != 2 || a[j][1] != 'i');
        }
    }
}

/// The ffmpeg arguments of an audio mux.
pub fn mux_audio_args(audio: &str, video: &str, tmp: &str) -> (r: Vec<String>)
    ensures
        strs(r@) == mux_args_spec(audio@, video@, tmp@),
{
    let mut r: Vec<String> = Vec::new();
    push_lit(&mut r, "-hide_banner");
    push_lit(&mut r, "-loglevel");
    push_lit(&mut r, "error");
    push_lit(&mut r, "-y");
    push_lit(&mut r, "-stream_loop");
    push_lit(&mut r, "-1");
    push_lit(&mut r, "-i");
    push_lit(&mut r, audio);
    push_lit(&mut r, "-i");
    push_lit(&mut r, video);
    push_lit(&mut r, "-map");
    push_lit(&mut r, "1:v:0");
    push_lit(&mut r, "-map");
    push_lit(&mut r, "0:a:0");
    push_lit(&mut r, "-c:v");
    push_lit(&mut r, "copy");
    push_lit(&mut r, "-c:a");
    push_lit(&mut r, "aac");
    push_lit(&mut r, "-b:a");
    push_lit(&mut r, "192k");
    push_lit(&mut r, "-shortest");
    push_lit(&mut r, tmp);
    assert(strs(r@) =~= mux_args_spec(audio@, video@, tmp@));
    r
}

/// The work of muxing `audio` under `video` into `output`: the temporary file and the
/// ffmpeg arguments, or the job error when `audio` is no file.
pub fn mux_plan(video: &str, audio: &str, output: &str, audio_is_file: bool) -> (r: Result<
    (String, Vec<String>),
    RenderError,
>)
    ensures
        !audio_is_file ==> (r matches Err(e) && e@ == RenderErrorView::Job("audio file not found: "@ + audio@)),
        audio_is_file ==> (r matches Ok(p) && p.0@ == path_with_extension(output@, "mux.tmp.mkv"@) && strs(p.1@)
            == mux_args_spec(audio@, video@, p.0@)),
{
    if !audio_is_file {
        let mut m = str_string("audio file not found: ");
        m.append(audio);
        return Err(RenderError::Job(m));
    }
    let tmp = mux_tmp_path(output);
    let args = mux_audio_args(audio, video, tmp.as_str());
    Ok((tmp, args))
}

/// The error of a mux whose ffmpeg run failed with `stderr`.
pub fn mux_failure(stderr: &str) -> (e: RenderError)
    ensures
        e@ == RenderErrorView::Ffmpeg("audio mux failed: "@ + stderr@),
{
    let mut m = str_string("audio mux failed: ");
    m.append(stderr);
    RenderError::Ffmpeg(m)
}

} // verus!
