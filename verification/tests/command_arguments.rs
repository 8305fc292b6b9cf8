use yar::{get_downloader_args, get_ffmpeg_args};

#[test]
fn downloader_arguments() {
    assert_eq!(
        get_downloader_args("https://example.org/v", "mp3", "out/1 - Song.mp3"),
        vec!["-x", "https://example.org/v", "-f", "mp3", "--output", "out/1 - Song.mp3"]
    );
}

#[test]
fn cutter_arguments_with_an_end() {
    assert_eq!(
        get_ffmpeg_args("out/full.mp3", "0:1:0", Some(String::from("0:1:30")), "out/1 - S.mp3"),
        vec![
            "-i",
            "out/full.mp3",
            "-vn",
            "-c:a",
            "copy",
            "-ss",
            "0:1:0",
            "-to",
            "0:1:30",
            "out/1 - S.mp3"
        ]
    );
}

#[test]
fn cutter_arguments_to_the_end_of_the_file() {
    assert_eq!(
        get_ffmpeg_args("out/full.mp3", "0:1:0", None, "out/1 - S.mp3"),
        vec!["-i", "out/full.mp3", "-vn", "-c:a", "copy", "-ss", "0:1:0", "out/1 - S.mp3"]
    );
}
