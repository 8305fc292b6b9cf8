//! Turns the description of a music library into decisions: which source of a
//! track to fetch, what to cut out of a shared full recording, which tags to
//! write. The program around this library reads the description, acts on the
//! file system, the network and external programs, and reports back.

use vstd::prelude::*;

pub mod album;
pub mod bandcamp;
pub mod cache;
pub mod commands;
pub mod dates;
pub mod duration;
pub mod error;
pub mod model;
pub mod naming;
pub mod number;
pub mod protocol;
pub mod resolver;
pub mod search;
pub mod soundcloud;
pub mod tagger;
pub mod text;
pub mod wave;
pub mod window;

pub use crate::cache::has_full;
pub use crate::commands::{get_downloader_args, get_ffmpeg_args};
pub use crate::duration::{duration_seconds_format, duration_seconds_parse, get_next_str};
pub use crate::error::Error;
pub use crate::model::{
    Album, Config, Date, Library, Location, Sample, Track, TrackArtist, Tracks, Wave,
};
pub use crate::naming::{get_path_album, get_track_title, parse_name};
pub use crate::tagger::{make_artist, make_comment, make_comment_from_sample};
pub use crate::window::{get_end_time, get_next_track_time, get_track_start_time};

verus! {

} // verus!
