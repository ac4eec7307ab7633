//! Directory entry records and the scan that builds them from what the file
//! system reported about each child of a directory.
use vstd::prelude::*;
use crate::timestamp::{modified_text, modified_text_of, ModTime};

verus! {

/// Whether an entry is a directory or anything else.
#[derive(Clone, Copy, Debug, PartialEq, Eq, Structural)]
pub enum EntryType {
    File,
    Dir,
}

impl EntryType {
    pub open spec fn label_spec(self) -> Seq<char> {
        match self {
            EntryType::File => "File"@,
            EntryType::Dir => "Dir"@,
        }
    }

    /// The text shown in the Type column.
    pub fn label(&self) -> (r: String)
        ensures
            r@ == self.label_spec(),
    {
        match self {
            EntryType::File => String::from_str("File"),
            EntryType::Dir => String::from_str("Dir"),
        }
    }
}

/// One row of a listing.
#[derive(Debug)]
pub struct FileEntry {
    pub name: String,
    pub e_type: EntryType,
    pub len: u64,
    pub modified: String,
}

/// A `FileEntry` with its texts as character sequences.
pub struct EntryView {
    pub name: Seq<char>,
    pub e_type: EntryType,
    pub len: u64,
    pub modified: Seq<char>,
}

impl View for FileEntry {
    type V = EntryView;

    open spec fn view(&self) -> EntryView {
        EntryView { name: self.name@, e_type: self.e_type, len: self.len, modified: self.modified@ }
    }
}

/// What the file system reported about one child, following symbolic links.
#[derive(Clone, Copy, Debug, PartialEq, Eq, Structural)]
pub struct EntryMetadata {
    pub is_dir: bool,
    pub len: u64,
    /// The last modification time, if the platform gave one.
    pub modified: Option<ModTime>,
}

/// One child yielded by reading a directory.
#[derive(Debug)]
pub struct ChildProbe {
    /// The base name, or `None` where it is not valid text.
    pub name: Option<String>,
    /// The child's metadata, or `None` where it could not be read.
    pub metadata: Option<EntryMetadata>,
}

/// The name shown for a child whose name is not valid text.
pub open spec fn unknown_name() -> Seq<char> {
    "<unknown file name>"@
}

pub open spec fn name_text(name: Option<String>) -> Seq<char> {
    match name {
        Some(n) => n@,
        None => unknown_name(),
    }
}

/// The record of a child with readable metadata.
pub open spec fn record_of(name: Option<String>, meta: EntryMetadata) -> EntryView {
    EntryView {
        name: name_text(name),
        e_type: if meta.is_dir { EntryType::Dir } else { EntryType::File },
        len: meta.len,
        modified: modified_text_of(meta.modified),
    }
}

/// The records of a sequence of entries.
pub open spec fn views(s: Seq<FileEntry>) -> Seq<EntryView> {
    s.map_values(|e: FileEntry| e@)
}

/// The records that one yielded child contributes: one where its metadata
/// was read, none otherwise.
pub open spec fn child_records(c: Option<ChildProbe>) -> Seq<EntryView> {
    match c {
        Some(p) => match p.metadata {
            Some(m) => seq![record_of(p.name, m)],
            None => Seq::empty(),
        },
        None => Seq::empty(),
    }
}

/// The records of the children, in the order they were yielded.
pub open spec fn scanned(children: Seq<Option<ChildProbe>>) -> Seq<EntryView>
    decreases children.len(),
{
    if children.len() == 0 {
        Seq::empty()
    } else {
        scanned(children.drop_last()) + child_records(children.last())
    }
}

/// The records of a listing: none where the directory could not be read.
pub open spec fn listing_records(listing: Option<Vec<Option<ChildProbe>>>) -> Seq<EntryView> {
    match listing {
        Some(children) => scanned(children@),
        None => Seq::empty(),
    }
}

/// Whether a yielded child had its metadata read.
pub open spec fn readable(c: Option<ChildProbe>) -> bool {
    match c {
        Some(p) => p.metadata is Some,
        None => false,
    }
}

/// The record of a readable child.
pub open spec fn readable_record(c: Option<ChildProbe>) -> EntryView {
    match c {
        Some(p) => match p.metadata {
            Some(m) => record_of(p.name, m),
            None => arbitrary(),
        },
        None => arbitrary(),
    }
}

/// A scan keeps exactly the children whose metadata was read, in the order
/// they were yielded, and gives each of them one record; the record is a
/// directory exactly when that metadata says the child is one.
pub proof fn lemma_scan_keeps_readable_children(children: Seq<Option<ChildProbe>>)
    ensures
        scanned(children) == children.filter(|c: Option<ChildProbe>| readable(c)).map_values(
            |c: Option<ChildProbe>| readable_record(c),
        ),
        forall|i: int|
            0 <= i < scanned(children).len() ==> (#[trigger] scanned(children)[i]).e_type
                == (if children.filter(|c: Option<ChildProbe>| readable(c))[i]->0.metadata->0.is_dir {
                EntryType::Dir
            } else {
                EntryType::File
            }),
    decreases children.len(),
{
    reveal(Seq::filter);
    let pred = |c: Option<ChildProbe>| readable(c);
    let f = |c: Option<ChildProbe>| readable_record(c);
    if children.len() > 0 {
        lemma_scan_keeps_readable_children(children.drop_last());
        let rest = children.drop_last().filter(pred);
        if pred(children.last()) {
            assert(children.filter(pred) == rest.push(children.last()));
            assert(rest.push(children.last()).map_values(f) =~= rest.map_values(f).push(
                f(children.last()),
            ));
            assert(scanned(children) =~= children.filter(pred).map_values(f));
        } else {
            assert(children.filter(pred) == rest);
            assert(child_records(children.last()) =~= Seq::<EntryView>::empty());
            assert(scanned(children) =~= children.filter(pred).map_values(f));
        }
    } else {
        assert(scanned(children) =~= children.filter(pred).map_values(f));
    }
}

/// Appends the record of one child when its metadata was read.
pub fn get_entry(name: Option<String>, metadata: Option<EntryMetadata>, data: &mut Vec<FileEntry>)
    ensures
        views(final(data)@) == views(old(data)@) + match metadata {
            Some(m) => seq![record_of(name, m)],
            None => Seq::<EntryView>::empty(),
        },
{
    if let Some(meta) = metadata {
        let shown = match name {
            Some(n) => n,
            None => String::from_str("<unknown file name>"),
        };
        let e_type = if meta.is_dir {
            EntryType::Dir
        } else {
            EntryType::File
        };
        let modified = modified_text(meta.modified);
        data.push(FileEntry { name: shown, e_type, len: meta.len, modified });
        assert(views(final(data)@) =~= views(old(data)@) + seq![record_of(name, meta)]);
    } else {
        assert(views(final(data)@) =~= views(old(data)@) + Seq::<EntryView>::empty());
    }
}

/// Builds the records of the children of a directory, in the order they were
/// yielded, skipping those whose metadata could not be read; no records where
/// the directory itself could not be read.
pub fn get_files(listing: Option<Vec<Option<ChildProbe>>>) -> (r: Vec<FileEntry>)
    ensures
        views(r@) == listing_records(listing),
{
    let mut data: Vec<FileEntry> = Vec::new();
    if let Some(children) = listing {
        let mut i: usize = 0;
        assert(views(data@) =~= scanned(children@.take(0)));
        while i < children.len()
            invariant
                i <= children.len(),
                views(data@) == scanned(children@.take(i as int)),
            decreases children.len() - i,
        {
            let ghost before = views(data@);
            match &children[i] {
                Some(c) => {
                    let name = match &c.name {
                        Some(n) => Some(n.clone()),
                        None => None,
                    };
                    assert(name == c.name);
                    get_entry(name, c.metadata, &mut data);
                },
                None => {},
            }
            assert(children@.take(i + 1).drop_last() =~= children@.take(i as int));
            assert(children@.take(i + 1).last() == children@[i as int]);
            i = i + 1;
        }
        assert(children@.take(children.len() as int) =~= children@);
    }
    data
}

} // verus!
