//! The track catalog: the playable files of one directory, numbered from 1.

use vstd::prelude::*;

verus! {

/// `std::path::PathBuf`, a filesystem location. The catalog carries it from
/// the directory listing to whoever opens the file and never looks inside;
/// nothing is claimed of it.
#[verifier::external_type_specification]
#[verifier::external_body]
pub struct ExPathBuf(std::path::PathBuf);

/// One regular file of the music directory, as the directory listing gave it.
pub struct FileEntry {
    /// Where the file lies.
    pub path: std::path::PathBuf,
    /// The file's name, as shown to the operator.
    pub name: String,
}

/// What a track descriptor stands for.
pub struct TrackView {
    /// The track's number in the catalog, counted from 1.
    pub index: int,
    /// Where the track's file lies.
    pub path: std::path::PathBuf,
    /// The name under which the track is shown.
    pub display_name: Seq<char>,
}

/// One playable file and its number in the catalog. Nothing changes a
/// descriptor once the catalog has made it.
#[derive(Debug)]
pub struct TrackDescriptor {
    index: i32,
    path: std::path::PathBuf,
    display_name: String,
}

impl View for TrackDescriptor {
    type V = TrackView;

    closed spec fn view(&self) -> TrackView {
        TrackView { index: self.index as int, path: self.path, display_name: self.display_name@ }
    }
}

impl TrackDescriptor {
    /// The track's number: its position in the catalog, counted from 1.
    pub fn index(&self) -> (index: i32)
        ensures
            index == self@.index,
    {
        self.index
    }

    /// Where the track's file lies.
    pub fn path(&self) -> (path: &std::path::PathBuf)
        ensures
            *path == self@.path,
    {
        &self.path
    }

    /// The name under which the track is shown.
    pub fn display_name(&self) -> (name: &String)
        ensures
            name@ == self@.display_name,
    {
        &self.display_name
    }
}

/// The descriptor that the file at position `position` of a listing gets.
pub open spec fn described(entry: FileEntry, position: int) -> TrackView {
    TrackView { index: position + 1, path: entry.path, display_name: entry.name@ }
}

/// The catalog of a listing: one descriptor per file, in the listing's
/// order, numbered 1, 2, 3 and so on.
pub open spec fn catalog_of(listing: Seq<FileEntry>) -> Seq<TrackView> {
    Seq::new(listing.len(), |position: int| described(listing[position], position))
}

/// The tracks of one directory. Indices are dense, start at 1 and follow the
/// order of the listing that the catalog was built from.
#[derive(Debug)]
pub struct TrackCatalog {
    tracks: Vec<TrackDescriptor>,
}

impl View for TrackCatalog {
    type V = Seq<TrackView>;

    closed spec fn view(&self) -> Seq<TrackView> {
        Seq::new(self.tracks@.len(), |position: int| self.tracks@[position]@)
    }
}

impl TrackCatalog {
    /// The numbering that every catalog keeps: the track at each position
    /// carries that position, counted from 1, and the last index fits the
    /// index type.
    pub open spec fn numbered(tracks: Seq<TrackView>) -> bool {
        &&& tracks.len() <= i32::MAX
        &&& forall|position: int|
            0 <= position < tracks.len() ==> (#[trigger] tracks[position]).index == position + 1
    }

    #[verifier::type_invariant]
    pub open spec fn well_formed(&self) -> bool {
        Self::numbered(self@)
    }

    /// A catalog without tracks.
    pub fn empty() -> (catalog: TrackCatalog)
        ensures
            catalog@ == Seq::<TrackView>::empty(),
    {
        TrackCatalog { tracks: Vec::new() }
    }

    /// Builds the catalog of a directory listing. The listing holds regular
    /// files only; the catalog keeps its order and numbers the files from 1.
    pub fn build(listing: Vec<FileEntry>) -> (catalog: TrackCatalog)
        requires
            listing@.len() <= i32::MAX,
        ensures
            catalog@ == catalog_of(listing@),
    {
        let mut tracks: Vec<TrackDescriptor> = Vec::new();
        let ghost files = listing@;
        for entry in it: listing
            invariant
                it.seq() == files,
                files.len() <= i32::MAX,
                tracks@.len() == it.index(),
                forall|position: int|
                    0 <= position < tracks@.len() ==> (#[trigger] tracks@[position])@ == described(
                        files[position],
                        position,
                    ),
        {
            let index: i32 = (tracks.len() + 1) as i32;
            tracks.push(TrackDescriptor { index, path: entry.path, display_name: entry.name });
        }
        let catalog = TrackCatalog { tracks };
        catalog
    }

    /// The number of tracks, which is also the largest index.
    pub fn len(&self) -> (count: usize)
        ensures
            count == self@.len(),
    {
        self.tracks.len()
    }

    /// Looks a track up by its index. An index that the catalog does not
    /// hold is an ordinary outcome and yields `None`.
    pub fn get(&self, index: i32) -> (found: Option<&TrackDescriptor>)
        ensures
            found is Some <==> 1 <= index <= self@.len(),
            found matches Some(track) ==> track@ == self@[index - 1] && track@.index == index,
    {
        proof {
            use_type_invariant(self);
        }
        if index >= 1 && (index as usize) <= self.tracks.len() {
            Some(&self.tracks[(index - 1) as usize])
        } else {
            None
        }
    }

    /// All tracks in index order.
    pub fn all(&self) -> (tracks: &Vec<TrackDescriptor>)
        ensures
            tracks@.len() == self@.len(),
            forall|position: int|
                0 <= position < tracks@.len() ==> (#[trigger] tracks@[position])@
                    == self@[position],
    {
        &self.tracks
    }

}

} // verus!
