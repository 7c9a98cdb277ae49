//! What the library view computes: the play order from a chosen track on,
//! and which files of a folder count as music.

use crate::track::{described, AudioFile, Tags, TrackModel};
use vstd::prelude::*;

verus! {

/// `list` rotated so that the item at `start` comes first and the items
/// before it follow at the end. A start equal to the length gives the list
/// unrotated; a start beyond it gives the empty list.
pub open spec fn rotated<T>(list: Seq<T>, start: int) -> Seq<T> {
    if 0 <= start <= list.len() {
        list.skip(start) + list.take(start)
    } else {
        Seq::empty()
    }
}

/// The tracks of `music_list` from index `i` to the end, then those before
/// `i`: the queue for "play this one and go on from there, wrapping round".
pub fn get_wrapped_music_list(music_list: &Vec<AudioFile>, i: usize) -> (wrapped: Vec<AudioFile>)
    ensures
        wrapped@ == rotated(music_list@, i as int),
{
    let mut wrapped: Vec<AudioFile> = Vec::new();
    let len = music_list.len();
    if i > len {
        return wrapped;
    }
    let mut k: usize = i;
    while k < len
        invariant
            i <= k <= len,
            len == music_list@.len(),
            wrapped@ == music_list@.subrange(i as int, k as int),
        decreases len - k,
    {
        wrapped.push(music_list[k].clone());
        k += 1;
    }
    assert(music_list@.subrange(i as int, len as int) =~= music_list@.skip(i as int));
    let mut k: usize = 0;
    while k < i
        invariant
            k <= i <= len,
            len == music_list@.len(),
            wrapped@ == music_list@.skip(i as int) + music_list@.take(k as int),
        decreases i - k,
    {
        wrapped.push(music_list[k].clone());
        assert(music_list@.take(k + 1) =~= music_list@.take(k as int).push(music_list@[k as int]));
        k += 1;
    }
    wrapped
}

/// A rotation keeps every item: it has the length of the list, and its item
/// at `k` is the list's item `k` places after `start`, counted cyclically.
pub proof fn lemma_rotation_wraps<T>(list: Seq<T>, start: int, k: int)
    requires
        0 <= start <= list.len(),
        0 <= k < list.len(),
    ensures
        rotated(list, start).len() == list.len(),
        rotated(list, start)[k] == list[(start + k) % (list.len() as int)],
{
    let n = list.len() as int;
    if start + k < n {
        assert((start + k) % n == start + k) by (nonlinear_arith)
            requires
                0 <= start + k < n,
        ;
    } else {
        assert((start + k) % n == start + k - n) by (nonlinear_arith)
            requires
                n <= start + k < 2 * n,
        ;
    }
}

/// Rotating from the first item, or from the length, gives the list itself.
pub proof fn lemma_rotation_identity<T>(list: Seq<T>)
    ensures
        rotated(list, 0) == list,
        rotated(list, list.len() as int) == list,
{
    assert(list.skip(0) + list.take(0) =~= list);
    assert(list.skip(list.len() as int) + list.take(list.len() as int) =~= list);
}

/// Whether a file with this extension is taken for music.
pub open spec fn music_extension(ext: Seq<char>) -> bool {
    ext == "mp3"@ || ext == "flac"@ || ext == "wav"@ || ext == "ogg"@
}

/// Whether a file with the extension `ext` (without its dot) is taken for
/// music: `mp3`, `flac`, `wav` and `ogg` are, in exactly this spelling.
pub fn is_music_extension(ext: &str) -> (music: bool)
    ensures
        music == music_extension(ext@),
{
    let ext = String::from_str(ext);
    ext == String::from_str("mp3") || ext == String::from_str("flac") || ext == String::from_str(
        "wav",
    ) || ext == String::from_str("ogg")
}


/// What a folder holds: files, and folders with what they hold in turn.
pub enum Entry {
    /// A file, with its path and its extension, if it has one.
    File { path: String, extension: Option<String> },
    /// A folder, with its entries in listing order.
    Folder { entries: Vec<Entry> },
}

/// The paths of the music files under one entry, in listing order.
pub open spec fn music_under(entry: Entry) -> Seq<Seq<char>>
    decreases entry, 0nat,
{
    match entry {
        Entry::File { path, extension } => match extension {
            Some(ext) => if music_extension(ext@) {
                seq![path@]
            } else {
                Seq::empty()
            },
            None => Seq::empty(),
        },
        Entry::Folder { entries } => music_among(entries, entries@.len()),
    }
}

/// The paths of the music files under the first `count` of `entries`: for
/// each entry in turn, what lies under it.
pub open spec fn music_among(entries: Vec<Entry>, count: nat) -> Seq<Seq<char>>
    decreases entries, count,
{
    if count == 0 || count > entries@.len() {
        Seq::empty()
    } else {
        music_among(entries, (count - 1) as nat) + music_under(entries@[count - 1])
    }
}

/// The texts of `strings`, one for one.
pub open spec fn texts_of(strings: Seq<String>) -> Seq<Seq<char>> {
    Seq::new(strings.len(), |i: int| strings[i]@)
}

/// The paths of all music files in a folder and the folders below it. The
/// files of a folder come where the folder stands in the listing.
pub fn recursive_file_walk(entries: &Vec<Entry>) -> (files: Vec<String>)
    ensures
        texts_of(files@) == music_among(*entries, entries@.len()),
    decreases entries,
{
    let mut files: Vec<String> = Vec::new();
    let mut k: usize = 0;
    while k < entries.len()
        invariant
            k <= entries@.len(),
            texts_of(files@) == music_among(*entries, k as nat),
        decreases entries@.len() - k,
    {
        let ghost before = files@;
        match &entries[k] {
            Entry::File { path, extension } => {
                let music = match extension {
                    Some(ext) => is_music_extension(ext.as_str()),
                    None => false,
                };
                if music {
                    files.push(path.clone());
                    assert(texts_of(files@) =~= texts_of(before) + seq![path@]);
                }
            },
            Entry::Folder { entries: inner } => {
                let mut below = recursive_file_walk(inner);
                let ghost found = below@;
                files.append(&mut below);
                assert(texts_of(files@) =~= texts_of(before) + texts_of(found));
            },
        }
        assert(texts_of(files@) =~= texts_of(before) + music_under(entries@[k as int]));
        k += 1;
    }
    files
}


/// A candidate for the library: a file and what a tag reader found in it,
/// or `None` where the file could not be read.
pub struct Scanned {
    pub path: String,
    pub tags: Option<Tags>,
}

/// The descriptors of the candidates that could be read, in their order.
pub open spec fn listing(scanned: Seq<Scanned>) -> Seq<TrackModel>
    decreases scanned.len(),
{
    if scanned.len() == 0 {
        Seq::empty()
    } else {
        match scanned.last().tags {
            Some(tags) => listing(scanned.drop_last()).push(described(scanned.last().path@, tags)),
            None => listing(scanned.drop_last()),
        }
    }
}

/// The values of `tracks`, one for one.
pub open spec fn models_of(tracks: Seq<AudioFile>) -> Seq<TrackModel> {
    Seq::new(tracks.len(), |i: int| tracks[i]@)
}

/// Builds the library from the candidates: each file that could be read is
/// described, a file that could not is skipped.
pub fn build_library(scanned: Vec<Scanned>) -> (library: Vec<AudioFile>)
    ensures
        models_of(library@) == listing(scanned@),
{
    let mut library: Vec<AudioFile> = Vec::new();
    let ghost all = scanned@;
    assert(all.take(0) =~= Seq::empty());
    for candidate in iter: scanned
        invariant
            iter.seq() == all,
            models_of(library@) == listing(all.take(iter.index() as int)),
    {
        let ghost before = library@;
        proof {
            let next = all.take(iter.index() + 1);
            assert(next.drop_last() =~= all.take(iter.index() as int));
            assert(next.last() == candidate);
        }
        let Scanned { path, tags } = candidate;
        match AudioFile::new(&path, tags) {
            Ok(file) => {
                library.push(file);
                assert(models_of(library@) =~= models_of(before).push(file@));
            },
            Err(_) => {},
        }
    }
    assert(all.take(all.len() as int) =~= all);
    library
}


/// Whether `row` is the first row of `library` that holds the file at `path`.
pub open spec fn first_row_of(library: Seq<AudioFile>, path: Seq<char>, row: int) -> bool {
    &&& 0 <= row < library.len()
    &&& library[row]@.path == path
    &&& forall|i: int| 0 <= i < row ==> (#[trigger] library[i])@.path != path
}

/// The row of the library that shows `track`: the first one with its path.
/// `None` where the library does not hold the file.
pub fn playing_row(music_list: &Vec<AudioFile>, track: &AudioFile) -> (row: Option<usize>)
    ensures
        row matches Some(r) ==> first_row_of(music_list@, track@.path, r as int),
        row is None ==> forall|i: int|
            0 <= i < music_list@.len() ==> (#[trigger] music_list@[i])@.path != track@.path,
{
    let mut k: usize = 0;
    while k < music_list.len()
        invariant
            k <= music_list@.len(),
            forall|i: int| 0 <= i < k ==> (#[trigger] music_list@[i])@.path != track@.path,
        decreases music_list@.len() - k,
    {
        if *music_list[k].get_path() == *track.get_path() {
            return Some(k);
        }
        k += 1;
    }
    None
}

} // verus!
