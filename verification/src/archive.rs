//! Which archive holds which file.
//!
//! Archives are told apart from other files by their extension. Where two archives hold a
//! file of one name, the archive that was added last is the one to read the file from. A
//! file that no archive holds is looked for on disk.
//!
//! Opening the archives and reading from them is left to the caller, who tells the index
//! which files each archive holds.

use vstd::prelude::*;

verus! {

/// Whether the text is the same in both.
pub(crate) fn same_text(a: &str, b: &str) -> (same: bool)
    ensures
        same == (a@ == b@),
{
    let left = a.to_owned();
    let right = b.to_owned();
    left == right
}

/// Whether a file with this extension is an archive: `pak`, `pk2`, `pk3` or `pk4`.
pub open spec fn is_archive_extension(extension: Seq<char>) -> bool {
    extension == "pak"@ || extension == "pk2"@ || extension == "pk3"@ || extension == "pk4"@
}

/// Where to read a file from.
#[derive(Debug)]
pub enum Source {
    /// From the archive at this path.
    Archive(String),
    /// From the file of that name on disk.
    LooseFile,
}

/// One file of an archive: the file's name and the archive's path.
pub type Entry = (Seq<char>, Seq<char>);

/// The archive to read each file from, given the files in the order in which they were
/// added: a file that is added again is read from the archive it was last added with.
pub open spec fn archive_of(entries: Seq<Entry>) -> Map<Seq<char>, Seq<char>>
    decreases entries.len(),
{
    if entries.len() == 0 {
        Map::empty()
    } else {
        archive_of(entries.drop_last()).insert(entries.last().0, entries.last().1)
    }
}

/// The files of one archive, each with the archive's path.
pub open spec fn entries_of(archive_path: Seq<char>, file_names: Seq<String>) -> Seq<Entry> {
    Seq::new(file_names.len(), |i: int| (file_names[i]@, archive_path))
}

/// Whether one of the names is `name`.
pub open spec fn names_hold(file_names: Seq<String>, name: Seq<char>) -> bool {
    exists|i: int| 0 <= i < file_names.len() && (#[trigger] file_names[i])@ == name
}

/// The archive that was added last wins: once an archive is added, each of its files is read
/// from it, and every other file is read from where it was read from before.
pub proof fn lemma_last_archive_wins(
    before: Seq<Entry>,
    archive_path: Seq<char>,
    file_names: Seq<String>,
    name: Seq<char>,
)
    ensures
        names_hold(file_names, name) ==> {
            let after = archive_of(before + entries_of(archive_path, file_names));
            after.dom().contains(name) && after[name] == archive_path
        },
        !names_hold(file_names, name) ==> {
            let after = archive_of(before + entries_of(archive_path, file_names));
            &&& after.dom().contains(name) == archive_of(before).dom().contains(name)
            &&& after.dom().contains(name) ==> after[name] == archive_of(before)[name]
        },
    decreases file_names.len(),
{
    let added = entries_of(archive_path, file_names);
    if file_names.len() == 0 {
        assert(before + added =~= before);
    } else {
        let front = file_names.drop_last();
        lemma_last_archive_wins(before, archive_path, front, name);
        assert((before + added).drop_last() =~= before + entries_of(archive_path, front));
        assert((before + added).last() == (file_names.last()@, archive_path));
        if names_hold(file_names, name) {
            let i = choose|i: int| 0 <= i < file_names.len() && (#[trigger] file_names[i])@ == name;
            if i < front.len() {
                assert(front[i]@ == name);
            }
        } else {
            assert(file_names[file_names.len() - 1]@ != name);
            assert forall|i: int| 0 <= i < front.len() implies (#[trigger] front[i])@ != name by {
                assert(file_names[i]@ != name);
            }
        }
    }
}

/// The archives that have been added, and the files they hold.
#[derive(Debug)]
pub struct EngineArchive {
    entries: Vec<(String, String)>,
}

impl EngineArchive {
    /// The files that have been added, each with the path of its archive, in order.
    pub closed spec fn entries(&self) -> Seq<Entry> {
        Seq::new(self.entries@.len(), |i: int| (self.entries@[i].0@, self.entries@[i].1@))
    }
}

impl View for EngineArchive {
    type V = Map<Seq<char>, Seq<char>>;

    open spec fn view(&self) -> Map<Seq<char>, Seq<char>> {
        archive_of(self.entries())
    }
}

impl EngineArchive {
    /// Whether a file with this extension is an archive.
    pub fn validate_extension(extension: &str) -> (valid: bool)
        ensures
            valid == is_archive_extension(extension@),
    {
        same_text(extension, "pak") || same_text(extension, "pk2") || same_text(extension, "pk3")
            || same_text(extension, "pk4")
    }

    /// No archives.
    pub fn new() -> (archive: EngineArchive)
        ensures
            archive.entries() == Seq::<Entry>::empty(),
            archive@ == Map::<Seq<char>, Seq<char>>::empty(),
    {
        let archive = EngineArchive { entries: Vec::new() };
        assert(archive.entries() =~= Seq::<Entry>::empty());
        archive
    }

    /// Adds the archive at `archive_path`, which holds the files of the given names. From
    /// now on each of these files is read from this archive.
    pub fn add_archive(&mut self, archive_path: &str, file_names: Vec<String>)
        ensures
            final(self).entries() == old(self).entries() + entries_of(archive_path@, file_names@),
    {
        let ghost added = entries_of(archive_path@, file_names@);
        let mut file_names = file_names;
        let ghost names = file_names@;
        let mut i: usize = 0;
        assert(self.entries() =~= old(self).entries() + added.take(0));
        let len = file_names.len();
        while i < len
            invariant
                i <= len,
                len == names.len(),
                file_names@.len() == len,
                added == entries_of(archive_path@, names),
                forall|k: int| i <= k < len ==> (#[trigger] file_names@[k])@ == names[k]@,
                self.entries() == old(self).entries() + added.take(i as int),
            decreases len - i,
        {
            let mut name = String::new();
            core::mem::swap(&mut name, &mut file_names[i]);
            let ghost before = self.entries();
            self.entries.push((name, archive_path.to_owned()));
            i = i + 1;
            proof {
                assert(self.entries() =~= before.push(added[i - 1]));
                assert(added.take(i as int) =~= added.take(i - 1).push(added[i - 1]));
            }
        }
        assert(added.take(len as int) =~= added);
    }

    /// Where to read the file of the given name from: from the archive that it was last
    /// added with, or from disk where no archive holds it.
    pub fn locate(&self, path: &str) -> (source: Source)
        ensures
            match source {
                Source::Archive(archive_path) => self@.dom().contains(path@) && archive_path@
                    == self@[path@],
                Source::LooseFile => !self@.dom().contains(path@),
            },
    {
        let name = path.to_owned();
        let ghost entries = self.entries();
        let mut i: usize = self.entries.len();
        assert(entries.take(i as int) =~= entries);
        while i > 0
            invariant
                i <= self.entries@.len(),
                entries == self.entries(),
                name@ == path@,
                archive_of(entries).dom().contains(path@) == archive_of(
                    entries.take(i as int),
                ).dom().contains(path@),
                archive_of(entries).dom().contains(path@) ==> archive_of(entries)[path@]
                    == archive_of(entries.take(i as int))[path@],
            decreases i,
        {
            i = i - 1;
            proof {
                let now = entries.take(i + 1);
                assert(now.drop_last() =~= entries.take(i as int));
                assert(now.last() == entries[i as int]);
            }
            if self.entries[i].0 == name {
                return Source::Archive(self.entries[i].1.clone());
            }
        }
        assert(entries.take(0) =~= Seq::<Entry>::empty());
        Source::LooseFile
    }
}

} // verus!
