use crate::error::Error;
use crate::tagger::{TagRecord, TagRecordView};
use crate::text::texts;
use vstd::prelude::*;

verus! {

/// What the library asks the program around it to do next. The library
/// decides; the program acts on the file system, the network and external
/// programs, and reports back with an `Event`.
#[derive(Debug)]
pub enum Action {
    /// Create the directory at this path, and its parents.
    CreateDir(String),
    /// Say whether a file exists at this path.
    Probe(String),
    /// Fetch the bytes of the cover image at this address.
    FetchCover(String),
    /// Write these bytes of a cover image to the file at this path.
    WriteCover(String, Vec<u8>),
    /// Read the bytes of the cover image in the file at this path.
    ReadCover(String),
    /// Run the downloader with these arguments, for a shared full recording.
    FetchFull(Vec<String>),
    /// Run the downloader with these arguments, for a single track.
    FetchTrack(Vec<String>),
    /// Run the cutter with these arguments.
    Cut(Vec<String>),
    /// Write this record into the tag container of the file at this path.
    WriteTags(String, TagRecord),
    /// Remove the file at this path.
    Remove(String),
    /// Nothing more: the work has ended, in this way.
    Done(Result<(), Error>),
}

/// What an `Action` holds, as mathematical values.
pub enum ActionView {
    CreateDir(Seq<char>),
    Probe(Seq<char>),
    FetchCover(Seq<char>),
    WriteCover(Seq<char>, Seq<u8>),
    ReadCover(Seq<char>),
    FetchFull(Seq<Seq<char>>),
    FetchTrack(Seq<Seq<char>>),
    Cut(Seq<Seq<char>>),
    WriteTags(Seq<char>, TagRecordView),
    Remove(Seq<char>),
    Done(Result<(), Error>),
}

impl View for Action {
    type V = ActionView;

    open spec fn view(&self) -> ActionView {
        match *self {
            Action::CreateDir(path) => ActionView::CreateDir(path@),
            Action::Probe(path) => ActionView::Probe(path@),
            Action::FetchCover(url) => ActionView::FetchCover(url@),
            Action::WriteCover(path, bytes) => ActionView::WriteCover(path@, bytes@),
            Action::ReadCover(path) => ActionView::ReadCover(path@),
            Action::FetchFull(args) => ActionView::FetchFull(texts(args@)),
            Action::FetchTrack(args) => ActionView::FetchTrack(texts(args@)),
            Action::Cut(args) => ActionView::Cut(texts(args@)),
            Action::WriteTags(path, record) => ActionView::WriteTags(path@, record@),
            Action::Remove(path) => ActionView::Remove(path@),
            Action::Done(result) => ActionView::Done(result),
        }
    }
}

/// What came of an action.
#[derive(Debug)]
pub enum Event {
    /// The answer to `Probe`: whether the file exists.
    Exists(bool),
    /// The answer to an action that either succeeds or fails as a whole.
    Finished(bool),
    /// The answer to `FetchCover` and `ReadCover`: the bytes, if they could be
    /// had.
    Bytes(Option<Vec<u8>>),
}

/// What an `Event` holds, as mathematical values.
pub enum EventView {
    Exists(bool),
    Finished(bool),
    Bytes(Option<Seq<u8>>),
}

impl View for Event {
    type V = EventView;

    open spec fn view(&self) -> EventView {
        match *self {
            Event::Exists(found) => EventView::Exists(found),
            Event::Finished(ok) => EventView::Finished(ok),
            Event::Bytes(bytes) => EventView::Bytes(
                match bytes {
                    Some(bytes) => Some(bytes@),
                    None => None,
                },
            ),
        }
    }
}

} // verus!
