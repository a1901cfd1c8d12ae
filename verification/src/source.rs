//! Where the collection comes from: the result of listing a directory is
//! turned into the collection that the grid shows.

use std::path::PathBuf;
use vstd::prelude::*;
use crate::row::lemma_filter_push;
use crate::state::State;

verus! {

/// One entry of a directory listing: its path, and whether it is a regular file.
#[derive(Debug)]
pub struct ScannedEntry {
    pub path: PathBuf,
    pub is_file: bool,
}

/// The directory could not be listed.
#[derive(Clone, Copy, Debug, PartialEq, Eq, Structural)]
pub struct EnumerationFailure {}

/// The paths of the regular files among `entries`, in the order listed.
pub open spec fn regular_files(entries: Seq<ScannedEntry>) -> Seq<PathBuf> {
    entries.filter(|entry: ScannedEntry| entry.is_file).map_values(
        |entry: ScannedEntry| entry.path,
    )
}

/// Owner of the image collection. It alone replaces the collection; the grid
/// and its rows borrow it to read.
#[derive(Debug)]
pub struct App {
    state: State,
}

impl App {
    /// The collection.
    pub closed spec fn collection(&self) -> State {
        self.state
    }

    /// An owner for the collection `state`.
    pub fn new(state: State) -> (app: App)
        ensures
            app.collection() == state,
    {
        App { state }
    }

    /// The collection, to read.
    pub fn state(&self) -> (state: &State)
        ensures
            *state == self.collection(),
    {
        &self.state
    }

    /// Takes the result of listing the image directory.
    ///
    /// A listing replaces the whole collection by the regular files listed, in
    /// the order listed; nothing is sorted and nothing else is filtered out.
    /// The result is then `true`: a redraw is needed. A failed listing leaves
    /// the collection as it was, and the result is `false`.
    pub fn load_image_paths(&mut self, scan: Result<Vec<ScannedEntry>, EnumerationFailure>) -> (redraw:
        bool)
        ensures
            final(self).collection().capacity() == old(self).collection().capacity(),
            match scan {
                Ok(entries) => redraw && final(self).collection()@ == regular_files(entries@),
                Err(_) => !redraw && final(self).collection() == old(self).collection(),
            },
    {
        match scan {
            Ok(entries) => {
                let image_paths = files_of(entries);
                self.state.replace_all(image_paths)
            },
            Err(_) => false,
        }
    }
}

/// Picks the regular files out of a directory listing, keeping their order.
pub fn files_of(entries: Vec<ScannedEntry>) -> (image_paths: Vec<PathBuf>)
    ensures
        image_paths@ == regular_files(entries@),
{
    let mut image_paths: Vec<PathBuf> = Vec::new();
    for entry in it: entries
        invariant
            it.seq() == entries@,
            image_paths@ == regular_files(entries@.take(it.index() as int)),
    {
        proof {
            let seen = entries@.take(it.index() as int);
            assert(entries@.take(it.index() + 1) == seen.push(entry));
            lemma_filter_push(seen, |entry: ScannedEntry| entry.is_file, entry);
        }
        if entry.is_file {
            image_paths.push(entry.path);
        }
    }
    assert(entries@.take(entries@.len() as int) == entries@);
    image_paths
}

} // verus!
