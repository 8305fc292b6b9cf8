use crate::model::optional_text;
use crate::text::texts;
use vstd::prelude::*;
use vstd::string::*;

verus! {

/// The arguments for the downloader: extract the audio of `url` in the given
/// format into the file at `path_out`.
pub open spec fn downloader_args(url: Seq<char>, audio_fmt: Seq<char>, path_out: Seq<char>) -> Seq<
    Seq<char>,
> {
    seq!["-x"@, url, "-f"@, audio_fmt, "--output"@, path_out]
}

/// The arguments for the cutter: copy the audio stream of the file at
/// `path_full` from `start` on, up to `end` where there is one and to the end
/// of the file where there is none, into the file at `path_out`.
pub open spec fn ffmpeg_args(
    path_full: Seq<char>,
    start: Seq<char>,
    end: Option<Seq<char>>,
    path_out: Seq<char>,
) -> Seq<Seq<char>> {
    seq!["-i"@, path_full, "-vn"@, "-c:a"@, "copy"@, "-ss"@, start] + (match end {
        Some(end) => seq!["-to"@, end],
        None => Seq::empty(),
    }) + seq![path_out]
}

/// The arguments for the downloader.
pub fn get_downloader_args(url: &str, audio_fmt: &str, path_out: &str) -> (args: Vec<String>)
    ensures
        texts(args@) == downloader_args(url@, audio_fmt@, path_out@),
{
    let mut args: Vec<String> = Vec::new();
    args.push(String::from_str("-x"));
    args.push(String::from_str(url));
    args.push(String::from_str("-f"));
    args.push(String::from_str(audio_fmt));
    args.push(String::from_str("--output"));
    args.push(String::from_str(path_out));
    args
}

/// The arguments for the cutter.
pub fn get_ffmpeg_args(path_full: &str, start: &str, end: Option<String>, path_out: &str) -> (args:
    Vec<String>)
    ensures
        texts(args@) == ffmpeg_args(path_full@, start@, optional_text(end), path_out@),
{
    let mut args: Vec<String> = Vec::new();
    args.push(String::from_str("-i"));
    args.push(String::from_str(path_full));
    args.push(String::from_str("-vn"));
    args.push(String::from_str("-c:a"));
    args.push(String::from_str("copy"));
    args.push(String::from_str("-ss"));
    args.push(String::from_str(start));
    assert(texts(args@) == seq!["-i"@, path_full@, "-vn"@, "-c:a"@, "copy"@, "-ss"@, start@]);
    if let Some(end) = end {
        args.push(String::from_str("-to"));
        args.push(end);
        assert(texts(args@) == seq!["-i"@, path_full@, "-vn"@, "-c:a"@, "copy"@, "-ss"@, start@]
            + seq!["-to"@, end@]);
    }
    let ghost before = texts(args@);
    args.push(String::from_str(path_out));
    assert(texts(args@) == before + seq![path_out@]);
    args
}

} // verus!
