use yar::soundcloud::{
    sound_album_from, soundcloud_extract_json_from_html, soundcloud_find_sound,
    soundcloud_parse_sound, SoundcloudSound, SoundcloudUser,
};
use yar::{Date, Error, Wave};

fn sound(created_at: &str, duration: i32) -> SoundcloudSound {
    SoundcloudSound {
        artwork_url: String::from("https://example.org/art-large.jpg"),
        title: String::from("A Sound"),
        genre: String::from("Ambient"),
        waveform_url: String::from("https://example.org/wave.json"),
        user: SoundcloudUser { username: String::from("someone") },
        description: String::from("words"),
        created_at: String::from(created_at),
        duration,
    }
}

fn wave() -> Wave {
    Wave { length: 3, points: vec![1, 2, 3] }
}

#[test]
fn a_sound_becomes_an_album_of_one_track() {
    let album =
        soundcloud_parse_sound("https://example.org/s", sound("2021-03-04T05:06:07Z", 260999), wave())
            .unwrap();
    assert_eq!(album.name, "A Sound");
    assert_eq!(album.artist, "someone");
    assert_eq!(album.genre, "Ambient");
    assert_eq!(album.released, Date { year: 2021, month: 3, day: 4 });
    assert_eq!(album.cover, "https://example.org/art-t500x500.jpg");
    assert_eq!(album.track_count, 1);
    assert_eq!(album.tracks.len(), 1);
    let track = album.tracks.get("1").unwrap();
    assert_eq!(track.name, "A Sound");
    assert_eq!(track.duration, Some(String::from("0:4:20")));
    assert_eq!(track.location.len(), 1);
    assert_eq!(track.location[0].url, "https://example.org/s");
    assert_eq!(track.location[0].at, None);
    assert_eq!(track.wave.as_ref().unwrap().points, vec![1, 2, 3]);
    assert!(track.artists.is_none());
}

#[test]
fn the_date_is_the_one_in_the_named_offset() {
    let album =
        soundcloud_parse_sound("u", sound("2021-12-31T23:30:00-02:00", 0), wave()).unwrap();
    assert_eq!(album.released, Date { year: 2021, month: 12, day: 31 });
    let album =
        soundcloud_parse_sound("u", sound("2022-01-01T00:30:00+01:00", 0), wave()).unwrap();
    assert_eq!(album.released, Date { year: 2022, month: 1, day: 1 });
}

#[test]
fn a_time_that_is_none_is_invalid() {
    assert_eq!(
        soundcloud_parse_sound("u", sound("yesterday", 0), wave()).err(),
        Some(Error::InvalidData)
    );
    assert_eq!(
        soundcloud_parse_sound("u", sound("2021-03-04", 0), wave()).err(),
        Some(Error::InvalidData)
    );
}

#[test]
fn thousandths_are_rounded_towards_zero() {
    let released = Date { year: 2000, month: 1, day: 1 };
    let album = sound_album_from("u", sound("", 999), wave(), released);
    assert_eq!(album.tracks.get("1").unwrap().duration, Some(String::from("0:0:0")));
    let album = sound_album_from("u", sound("", -1999), wave(), released);
    assert_eq!(album.tracks.get("1").unwrap().duration, Some(String::from("0:0:-1")));
    let album = sound_album_from("u", sound("", 3_600_000), wave(), released);
    assert_eq!(album.tracks.get("1").unwrap().duration, Some(String::from("1:0:0")));
    assert_eq!(album.released, released);
}

#[test]
fn the_description_of_a_sound_is_cut_out_of_its_page() {
    let page = "<script>window.__sc_hydration = [{\"hydratable\":\"sound\"}];</script><script>y;</script>";
    assert_eq!(
        soundcloud_extract_json_from_html(page),
        Ok(String::from("[{\"hydratable\":\"sound\"}]"))
    );
}

#[test]
fn the_first_part_that_describes_a_sound() {
    let kinds = |names: &[&str]| names.iter().map(|n| String::from(*n)).collect::<Vec<String>>();
    assert_eq!(soundcloud_find_sound(&kinds(&["user", "sound", "sound"])), Some(1));
    assert_eq!(soundcloud_find_sound(&kinds(&["sound"])), Some(0));
    assert_eq!(soundcloud_find_sound(&kinds(&["user", "Sound", "sounds"])), None);
    assert_eq!(soundcloud_find_sound(&kinds(&[])), None);
}
