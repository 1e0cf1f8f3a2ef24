//! Resources by name, loaded from packs.
//!
//! A pack is a zip archive. Loading a pack adds each of its files under the file's name,
//! unless a file of that name is there already: what was loaded first stays.
//!
//! Reading the packs from disk is left to the caller, who hands over the bytes of each.

use crate::archive::same_text;
use vstd::prelude::*;

verus! {

/// `zip::ZipArchive`, an open archive over a reader. What it holds is known by
/// [`archive_files`] alone.
#[verifier::external_type_specification]
#[verifier::external_body]
#[verifier::reject_recursive_types(R)]
pub struct ExZipArchive<R>(zip::ZipArchive<R>);

/// `std::io::Cursor`, a reader over bytes in memory. Nothing is known of what it holds.
#[verifier::external_type_specification]
#[verifier::external_body]
#[verifier::reject_recursive_types(T)]
pub struct ExCursor<T>(std::io::Cursor<T>);

/// `std::io::Error`, what reading reports when it fails. Nothing is known of what it holds.
#[verifier::external_type_specification]
#[verifier::external_body]
pub struct ExIoError(std::io::Error);

/// `zip::result::ZipError`, what the unpacker reports when it fails. Nothing is known of
/// what it holds.
#[verifier::external_type_specification]
#[verifier::external_body]
pub struct ExZipError(zip::result::ZipError);

/// What reading `bytes` as a zip archive gives: for each file of the archive, in the order of
/// its directory, the file's name and contents; or nothing where the bytes are no archive
/// that can be read. A name is missing where it cannot be decoded. In place of the contents
/// stands the outer failure where the archive cannot get at the file, and the inner failure
/// where the file cannot be read to its end.
pub uninterp spec fn unzipped(bytes: Seq<u8>) -> Option<
    Seq<(Option<Seq<char>>, Result<Result<Seq<u8>, ()>, ()>)>,
>;

/// The files that an open archive holds, as [`unzipped`] lists them.
pub uninterp spec fn archive_files(archive: zip::ZipArchive<std::io::Cursor<Vec<u8>>>) -> Seq<
    (Option<Seq<char>>, Result<Result<Seq<u8>, ()>, ()>),
>;

/// Calls `ZipArchive::new` on a cursor over the bytes. It reads the archive's directory; the
/// archive that comes out holds the files that reading these bytes gives.
#[verifier::external_body]
fn open_archive(bytes: Vec<u8>) -> (result: Result<
    zip::ZipArchive<std::io::Cursor<Vec<u8>>>,
    zip::result::ZipError,
>)
    ensures
        match result {
            Ok(archive) => unzipped(bytes@) == Some(archive_files(archive)),
            Err(_) => unzipped(bytes@) is None,
        },
{
    zip::ZipArchive::new(std::io::Cursor::new(bytes))
}

/// Calls `ZipArchive::len`, the number of files in the archive.
#[verifier::external_body]
fn archive_len(archive: &zip::ZipArchive<std::io::Cursor<Vec<u8>>>) -> (len: usize)
    ensures
        len == archive_files(*archive).len(),
{
    archive.len()
}

/// Calls `ZipArchive::name_for_index`, which decodes the name of the file at `index`. There
/// is a file at every index below the archive's length.
#[verifier::external_body]
fn file_name(archive: &zip::ZipArchive<std::io::Cursor<Vec<u8>>>, index: usize) -> (result: Option<
    Result<String, zip::result::ZipError>,
>)
    ensures
        index < archive_files(*archive).len() ==> match result {
            Some(Ok(name)) => archive_files(*archive)[index as int].0 == Some(name@),
            Some(Err(_)) => archive_files(*archive)[index as int].0 is None,
            None => false,
        },
{
    match archive.name_for_index(index) {
        Some(Ok(name)) => Some(Ok(name.into_owned())),
        Some(Err(error)) => Some(Err(error)),
        None => None,
    }
}

/// Calls `ZipArchive::by_index` for the file at `index` and reads the file to its end, which
/// unpacks its contents. The two failures are kept apart: the outer one is that of
/// `by_index`, the inner one that of reading. The archive holds the same files afterwards.
#[verifier::external_body]
fn file_contents(archive: &mut zip::ZipArchive<std::io::Cursor<Vec<u8>>>, index: usize) -> (result:
    Result<Result<Vec<u8>, std::io::Error>, zip::result::ZipError>)
    ensures
        archive_files(*final(archive)) == archive_files(*old(archive)),
        index < archive_files(*old(archive)).len() ==> match result {
            Ok(Ok(contents)) => archive_files(*old(archive))[index as int].1 == Ok::<
                Result<Seq<u8>, ()>,
                (),
            >(Ok(contents@)),
            Ok(Err(_)) => archive_files(*old(archive))[index as int].1 == Ok::<
                Result<Seq<u8>, ()>,
                (),
            >(Err(())),
            Err(_) => archive_files(*old(archive))[index as int].1 is Err,
        },
{
    let mut file = match archive.by_index(index) {
        Ok(file) => file,
        Err(error) => return Err(error),
    };
    let mut contents = Vec::new();
    match std::io::Read::read_to_end(&mut file, &mut contents) {
        Ok(_) => Ok(Ok(contents)),
        Err(error) => Ok(Err(error)),
    }
}

/// Writes out what `ZipError`'s `Display` says of the error. Nothing is claimed of the text.
#[verifier::external_body]
fn describe(error: &zip::result::ZipError) -> String {
    format!("{}", error)
}

/// Writes out what `std::io::Error`'s `Display` says of the error. Nothing is claimed of the
/// text.
#[verifier::external_body]
fn describe_read(error: &std::io::Error) -> String {
    format!("{}", error)
}

/// Why a resource could not be had.
#[derive(Debug)]
pub enum FileSystemError {
    /// A pack, or a file of a pack, could not be read; with what the reader says of it.
    IoError(String),
    /// A pack is no archive that can be read; with what the unpacker says of it.
    ZipError(String),
    /// No resource of this name has been loaded.
    ResourceNotFound(String),
}

/// One file of a pack: its name and its contents, or what stands in their place.
pub type PackFile = (Option<Seq<char>>, Result<Result<Seq<u8>, ()>, ()>);

/// Whether the file has a name and contents.
pub open spec fn readable(file: PackFile) -> bool {
    file.0 is Some && file.1 matches Ok(Ok(_))
}

/// The contents of a file that has them.
pub open spec fn contents_of(file: PackFile) -> Seq<u8> {
    match file.1 {
        Ok(Ok(contents)) => contents,
        _ => Seq::empty(),
    }
}

/// Whether a file that is not readable fails to be read, rather than to be got at in the
/// archive: it has a name, the archive gets at it, and reading it to its end fails.
pub open spec fn fails_in_reading(file: PackFile) -> bool {
    file.0 is Some && file.1 matches Ok(Err(_))
}

/// How many files come before the first that has no name or no contents.
pub open spec fn readable_prefix(files: Seq<PackFile>) -> nat
    decreases files.len(),
{
    if files.len() == 0 || !readable(files[0]) {
        0
    } else {
        1 + readable_prefix(files.skip(1))
    }
}

/// The readable prefix ends at the first file that cannot be read, or at the end.
pub proof fn lemma_readable_prefix(files: Seq<PackFile>, n: int)
    requires
        0 <= n <= files.len(),
        forall|k: int| 0 <= k < n ==> readable(#[trigger] files[k]),
        n == files.len() || !readable(files[n]),
    ensures
        readable_prefix(files) == n,
    decreases n,
{
    if n > 0 {
        assert(readable(files[0]));
        let rest = files.skip(1);
        assert forall|k: int| 0 <= k < n - 1 implies readable(#[trigger] rest[k]) by {
            assert(rest[k] == files[k + 1]);
        }
        lemma_readable_prefix(rest, n - 1);
    }
}

/// The resources after the files of a pack are added, in order, to those in `resources`: a
/// file is added unless its name is taken.
pub open spec fn with_files(resources: Map<Seq<char>, Seq<u8>>, files: Seq<PackFile>) -> Map<
    Seq<char>,
    Seq<u8>,
>
    decreases files.len(),
{
    if files.len() == 0 {
        resources
    } else {
        let before = with_files(resources, files.drop_last());
        let name = files.last().0->0;
        if before.dom().contains(name) {
            before
        } else {
            before.insert(name, contents_of(files.last()))
        }
    }
}

/// How many of the files are added by [`with_files`].
pub open spec fn files_added(resources: Map<Seq<char>, Seq<u8>>, files: Seq<PackFile>) -> nat
    decreases files.len(),
{
    if files.len() == 0 {
        0
    } else {
        let before = with_files(resources, files.drop_last());
        let added = files_added(resources, files.drop_last());
        if before.dom().contains(files.last().0->0) {
            added
        } else {
            added + 1
        }
    }
}

/// The resources that have been loaded, by name.
#[derive(Debug)]
pub struct FileSystem {
    files: Vec<(String, Vec<u8>)>,
}

impl View for FileSystem {
    type V = Map<Seq<char>, Seq<u8>>;

    closed spec fn view(&self) -> Map<Seq<char>, Seq<u8>> {
        Map::new(
            |name: Seq<char>| self.slot_of(name) is Some,
            |name: Seq<char>| self.files@[self.slot_of(name)->0].1@,
        )
    }
}

impl FileSystem {
    #[verifier::type_invariant]
    spec fn names_differ(self) -> bool {
        forall|i: int, j: int|
            0 <= i < j < self.files@.len() ==> (#[trigger] self.files@[i]).0@ != (
            #[trigger] self.files@[j]).0@
    }

    /// Where the resource of the given name is kept, if there is one.
    spec fn slot_of(self, name: Seq<char>) -> Option<int> {
        if exists|i: int| 0 <= i < self.files@.len() && (#[trigger] self.files@[i]).0@ == name {
            Some(choose|i: int| 0 <= i < self.files@.len() && (#[trigger] self.files@[i]).0@ == name)
        } else {
            None
        }
    }

    /// Whether a file with this extension is a pack: `pk5`.
    pub fn is_pack_extension(extension: &str) -> (pack: bool)
        ensures
            pack == (extension@ == "pk5"@),
    {
        same_text(extension, "pk5")
    }

    /// No resources.
    pub fn new() -> (file_system: FileSystem)
        ensures
            file_system@ == Map::<Seq<char>, Seq<u8>>::empty(),
    {
        let file_system = FileSystem { files: Vec::new() };
        assert(file_system@ =~= Map::<Seq<char>, Seq<u8>>::empty());
        file_system
    }

    /// Finds the slot in which the resource of the given name is kept.
    fn find(&self, name: &String) -> (slot: Option<usize>)
        ensures
            match slot {
                Some(i) => i < self.files@.len() && self.files@[i as int].0@ == name@
                    && self.slot_of(name@) == Some(i as int),
                None => self.slot_of(name@) is None,
            },
    {
        proof {
            use_type_invariant(self);
        }
        let mut i: usize = 0;
        while i < self.files.len()
            invariant
                i <= self.files@.len(),
                self.names_differ(),
                forall|k: int| 0 <= k < i ==> (#[trigger] self.files@[k]).0@ != name@,
            decreases self.files.len() - i,
        {
            if self.files[i].0 == *name {
                proof {
                    assert(self.files@[i as int].0@ == name@);
                    let found = self.slot_of(name@)->0;
                    assert(self.files@[found].0@ == name@);
                    assert(found == i);
                }
                return Some(i);
            }
            i = i + 1;
        }
        None
    }

    /// The contents of the resource of the given name.
    pub fn get(&self, name: &str) -> (result: Result<&Vec<u8>, FileSystemError>)
        ensures
            match result {
                Ok(contents) => self@.dom().contains(name@) && contents@ == self@[name@],
                Err(FileSystemError::ResourceNotFound(missing)) => !self@.dom().contains(name@)
                    && missing@ == name@,
                Err(_) => false,
            },
    {
        let name = name.to_owned();
        match self.find(&name) {
            Some(slot) => Ok(&self.files[slot].1),
            None => Err(FileSystemError::ResourceNotFound(name)),
        }
    }

    /// Adds the resource unless one of its name is there already. Tells whether it was added.
    fn add(&mut self, name: String, contents: Vec<u8>) -> (added: bool)
        ensures
            added == !old(self)@.dom().contains(name@),
            final(self)@ == if added {
                old(self)@.insert(name@, contents@)
            } else {
                old(self)@
            },
    {
        proof {
            use_type_invariant(&*self);
        }
        match self.find(&name) {
            Some(_) => false,
            None => {
                let ghost before = *self;
                let mut files: Vec<(String, Vec<u8>)> = Vec::new();
                core::mem::swap(&mut self.files, &mut files);
                files.push((name, contents));
                core::mem::swap(&mut self.files, &mut files);
                proof {
                    let last = before.files@.len() as int;
                    assert forall|key: Seq<char>| self.slot_of(key) == (if key == name@ {
                        Some(last)
                    } else {
                        before.slot_of(key)
                    }) by {
                        if key == name@ {
                            assert(self.files@[last].0@ == key);
                        } else if before.slot_of(key) is Some {
                            let i = before.slot_of(key)->0;
                            assert(self.files@[i].0@ == key);
                            assert(self.files@[i] == before.files@[i]);
                            let j = self.slot_of(key)->0;
                            assert(j != last);
                        } else {
                            if self.slot_of(key) is Some {
                                let j = self.slot_of(key)->0;
                                assert(before.files@[j].0@ == key);
                            }
                        }
                    }
                    assert(self@ =~= before@.insert(name@, contents@));
                }
                true
            },
        }
    }

    /// Adds the files of a pack, given as the bytes of a zip archive, and returns how many
    /// were added. A file whose name is taken is left out.
    ///
    /// Where a file of the pack cannot be read, the files before it have been added, the
    /// others have not, and the error says why: a file that the archive gets at and that
    /// cannot be read to its end is a failure to read, anything else is a failure of the
    /// archive.
    pub fn load_pack(&mut self, bytes: Vec<u8>) -> (result: Result<usize, FileSystemError>)
        ensures
            match unzipped(bytes@) {
                None => result matches Err(FileSystemError::ZipError(_)) && final(self)@ == old(
                    self,
                )@,
                Some(files) => {
                    let read = readable_prefix(files) as int;
                    &&& final(self)@ == with_files(old(self)@, files.take(read))
                    &&& if read == files.len() {
                        result matches Ok(added) && added == files_added(old(self)@, files)
                    } else if fails_in_reading(files[read]) {
                        result matches Err(FileSystemError::IoError(_))
                    } else {
                        result matches Err(FileSystemError::ZipError(_))
                    }
                },
            },
    {
        let ghost packed = bytes@;
        let mut archive = match open_archive(bytes) {
            Ok(archive) => archive,
            Err(error) => {
                return Err(FileSystemError::ZipError(describe(&error)));
            },
        };
        let ghost files = archive_files(archive);
        let len = archive_len(&archive);
        let mut count: usize = 0;
        let mut i: usize = 0;
        proof {
            assert(files.take(0) =~= Seq::empty());
        }
        while i < len
            invariant
                i <= len,
                len == files.len(),
                packed == bytes@,
                unzipped(packed) == Some(files),
                archive_files(archive) == files,
                forall|k: int| 0 <= k < i ==> readable(#[trigger] files[k]),
                self@ == with_files(old(self)@, files.take(i as int)),
                count == files_added(old(self)@, files.take(i as int)),
                count <= i,
            decreases len - i,
        {
            let ghost seen = files.take(i as int);
            let ghost now = files.take(i + 1);
            proof {
                assert(now.drop_last() =~= seen);
                assert(now.last() == files[i as int]);
            }
            let name = match file_name(&archive, i) {
                Some(Ok(name)) => name,
                Some(Err(error)) => {
                    proof {
                        lemma_readable_prefix(files, i as int);
                    }
                    return Err(FileSystemError::ZipError(describe(&error)));
                },
                None => {
                    return Err(FileSystemError::ZipError(String::new()));
                },
            };
            let contents = match file_contents(&mut archive, i) {
                Ok(Ok(contents)) => contents,
                Ok(Err(error)) => {
                    proof {
                        lemma_readable_prefix(files, i as int);
                    }
                    return Err(FileSystemError::IoError(describe_read(&error)));
                },
                Err(error) => {
                    proof {
                        lemma_readable_prefix(files, i as int);
                    }
                    return Err(FileSystemError::ZipError(describe(&error)));
                },
            };
            if self.add(name, contents) {
                count = count + 1;
            }
            i = i + 1;
        }
        proof {
            lemma_readable_prefix(files, len as int);
            assert(files.take(len as int) =~= files);
        }
        Ok(count)
    }
}

} // verus!
