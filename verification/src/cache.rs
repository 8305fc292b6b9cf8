use crate::text::{same_text, texts};
use vstd::prelude::*;
use vstd::string::*;

verus! {

/// The paths with `path` among them: added at the end where it was missing.
pub open spec fn with_path(files: Seq<Seq<char>>, path: Seq<char>) -> Seq<Seq<char>> {
    if files.contains(path) {
        files
    } else {
        files.push(path)
    }
}

/// The paths after a look for `path`: a file found on disk is registered.
pub open spec fn after_lookup(files: Seq<Seq<char>>, path: Seq<char>, on_disk: bool) -> Seq<
    Seq<char>,
> {
    if on_disk {
        with_path(files, path)
    } else {
        files
    }
}

/// Whether `path` is among `files`.
pub fn is_registered(path: &str, files: &Vec<String>) -> (known: bool)
    ensures
        known == texts(files@).contains(path@),
{
    let mut i: usize = 0;
    while i < files.len()
        invariant
            i <= files.len(),
            forall|j: int| 0 <= j < i ==> files@[j]@ != path@,
        decreases files.len() - i,
    {
        if same_text(files[i].as_str(), path) {
            assert(texts(files@)[i as int] == path@);
            return true;
        }
        i += 1;
    }
    false
}

/// Adds `path` to `files` unless it is there already.
pub fn register_full(path: &str, files: &mut Vec<String>)
    ensures
        texts(final(files)@) == with_path(texts(old(files)@), path@),
{
    if !is_registered(path, files) {
        let ghost before = texts(files@);
        files.push(String::from_str(path));
        assert(texts(files@) == before.push(path@));
    }
}

/// Whether the shared full recording at `path_full` is at hand: registered in
/// `files`, or, as `on_disk` says, present on disk. One that is found on disk
/// is registered, so that it counts from then on as any other.
pub fn has_full(path_full: &str, files: &mut Vec<String>, on_disk: bool) -> (known: bool)
    ensures
        known == (texts(old(files)@).contains(path_full@) || on_disk),
        texts(final(files)@) == after_lookup(texts(old(files)@), path_full@, on_disk),
{
    if is_registered(path_full, files) {
        return true;
    }
    if on_disk {
        let ghost before = texts(files@);
        files.push(String::from_str(path_full));
        assert(texts(files@) == before.push(path_full@));
        return true;
    }
    false
}

/// Registering keeps what was registered, registers the path, and never
/// makes a path occur twice.
pub proof fn law_registration(files: Seq<Seq<char>>, path: Seq<char>)
    ensures
        with_path(files, path).contains(path),
        forall|other: Seq<char>| files.contains(other) ==> with_path(files, path).contains(other),
        files.no_duplicates() ==> with_path(files, path).no_duplicates(),
        with_path(with_path(files, path), path) == with_path(files, path),
{
    let after = with_path(files, path);
    if !files.contains(path) {
        assert(after[files.len() as int] == path);
        assert forall|other: Seq<char>| files.contains(other) implies after.contains(other) by {
            let i = choose|i: int| 0 <= i < files.len() && files[i] == other;
            assert(after[i] == other);
        }
    }
}

/// Once a look for a full recording has found it, every later look finds
/// it and changes nothing, whatever is on disk by then.
pub proof fn law_lookup_is_idempotent(
    files: Seq<Seq<char>>,
    path: Seq<char>,
    on_disk: bool,
    later_on_disk: bool,
)
    requires
        files.contains(path) || on_disk,
    ensures
        after_lookup(files, path, on_disk).contains(path),
        after_lookup(after_lookup(files, path, on_disk), path, later_on_disk) == after_lookup(
            files,
            path,
            on_disk,
        ),
{
    law_registration(files, path);
}

} // verus!
