//! The entries of a package archive, read through the `zip` crate.

use std::io::Cursor;
use std::io::Read;
use vstd::prelude::*;
use zip::read::ZipFile;
use zip::result::ZipError;
use zip::ZipArchive;

verus! {

/// The archive reader of the `zip` crate.
#[verifier::external_type_specification]
#[verifier::external_body]
#[verifier::reject_recursive_types(R)]
pub struct ExZipArchive<R>(ZipArchive<R>);

/// The entry reader of the `zip` crate.
#[verifier::external_type_specification]
#[verifier::external_body]
pub struct ExZipFile<'a>(ZipFile<'a>);

/// The error of the `zip` crate.
#[verifier::external_type_specification]
#[verifier::external_body]
pub struct ExZipError(ZipError);

/// The in-memory reader of the standard library.
#[verifier::external_type_specification]
#[verifier::external_body]
#[verifier::reject_recursive_types(T)]
pub struct ExCursor<T>(Cursor<T>);

/// The input and output error of the standard library.
#[verifier::external_type_specification]
#[verifier::external_body]
pub struct ExIoError(std::io::Error);

/// What an opened entry holds.
pub struct FileModel {
    /// The name of the entry.
    pub name: Seq<char>,
    /// The data of the entry; `None` where reading it to its end fails.
    pub content: Option<Seq<u8>>,
}

/// What an archive holds for one entry of its directory.
pub struct EntryModel {
    /// Whether the entry is handed out when the empty password is offered
    /// for it.
    pub opens: bool,
    /// What the entry holds; `None` where it is not handed out when no
    /// password is offered. Meaningful where `opens`.
    pub file: Option<FileModel>,
}

/// The entries that `zip::ZipArchive::new` finds in `bytes`, in the order of
/// the central directory; `None` where it reports an error.
pub uninterp spec fn zip_directory(bytes: Seq<u8>) -> Option<Seq<EntryModel>>;

/// The entries that an archive holds, in the order of its directory.
pub uninterp spec fn archive_entries(archive: ZipArchive<Cursor<Vec<u8>>>) -> Seq<EntryModel>;

/// What an entry holds, as `zip::ZipArchive::by_index` hands it out.
pub uninterp spec fn file_model(file: ZipFile) -> FileModel;

/// Whether a name ends in `/` or `\`, which marks a directory.
pub open spec fn names_directory(name: Seq<char>) -> bool {
    name.len() > 0 && (name.last() == '/' || name.last() == '\\')
}

/// `zip::ZipArchive::new` on a cursor over `bytes`. Whether it succeeds, and
/// the entries of the archive it returns, depend on the bytes alone.
#[verifier::external_body]
fn zip_open(bytes: Vec<u8>) -> (r: Result<ZipArchive<Cursor<Vec<u8>>>, ZipError>)
    ensures
        match r {
            Ok(archive) => zip_directory(bytes@) == Some(archive_entries(archive)),
            Err(_) => zip_directory(bytes@) is None,
        },
{
    ZipArchive::new(Cursor::new(bytes))
}

/// `zip::ZipArchive::len`: the number of entries in the directory.
#[verifier::external_body]
fn zip_len(archive: &ZipArchive<Cursor<Vec<u8>>>) -> (n: usize)
    ensures
        n == archive_entries(*archive).len(),
{
    archive.len()
}

/// `zip::ZipArchive::by_index_decrypt` with the empty password: whether it
/// hands out the entry. Where it does not, it reports an error or a wrong
/// password; it does not panic. The archive keeps its entries.
#[verifier::external_body]
fn zip_opens(archive: &mut ZipArchive<Cursor<Vec<u8>>>, index: usize) -> (opens: bool)
    ensures
        archive_entries(*final(archive)) == archive_entries(*old(archive)),
        opens == (index < archive_entries(*old(archive)).len() && archive_entries(
            *old(archive),
        )[index as int].opens),
{
    matches!(archive.by_index_decrypt(index, &[]), Ok(Ok(_)))
}

/// `zip::ZipArchive::by_index`: the entry at `index`, or the error of the
/// call. It panics on no entry that the empty password opens: there it
/// either hands out the entry or reports that a password is needed. The
/// archive keeps its entries.
#[verifier::external_body]
fn zip_entry<'a>(archive: &'a mut ZipArchive<Cursor<Vec<u8>>>, index: usize) -> (r: Result<
    ZipFile<'a>,
    ZipError,
>)
    requires
        index < archive_entries(*old(archive)).len(),
        archive_entries(*old(archive))[index as int].opens,
    ensures
        archive_entries(*final(archive)) == archive_entries(*old(archive)),
        match r {
            Ok(file) => archive_entries(*old(archive))[index as int].file == Some(file_model(file)),
            Err(_) => archive_entries(*old(archive))[index as int].file is None,
        },
{
    archive.by_index(index)
}

/// `zip::read::ZipFile::name`: the name of the entry.
#[verifier::external_body]
fn zip_name(file: &ZipFile) -> (name: String)
    ensures
        name@ == file_model(*file).name,
{
    file.name().to_string()
}

/// `zip::read::ZipFile::is_file`: whether the entry is a regular file, which
/// is to say that its name does not end as a directory's does.
#[verifier::external_body]
fn zip_is_file(file: &ZipFile) -> (is_file: bool)
    ensures
        is_file == !names_directory(file_model(*file).name),
{
    file.is_file()
}

/// `std::io::Read::read_to_end` on an entry as `by_index` handed it out: the
/// data of the entry, or the error of the read.
#[verifier::external_body]
fn zip_read(file: &mut ZipFile) -> (r: Result<Vec<u8>, std::io::Error>)
    ensures
        match r {
            Ok(data) => file_model(*old(file)).content == Some(data@),
            Err(_) => file_model(*old(file)).content is None,
        },
{
    let mut data = Vec::new();
    file.read_to_end(&mut data).map(|_| data)
}

/// What the entry holds if it can be opened: it is handed out when no
/// password is offered.
pub open spec fn opened(entry: EntryModel) -> Option<FileModel> {
    if entry.opens {
        entry.file
    } else {
        None
    }
}

/// A package archive held in memory.
pub struct Package {
    archive: ZipArchive<Cursor<Vec<u8>>>,
}

/// An entry of a package that has been opened and not been read yet.
pub struct Entry<'a> {
    file: ZipFile<'a>,
}

impl Package {
    /// The entries of the package, in the order of its directory.
    pub closed spec fn entries(&self) -> Seq<EntryModel> {
        archive_entries(self.archive)
    }

    /// Reads the directory of the archive in `bytes`. `None` where the bytes
    /// are not an archive that can be read.
    pub fn open(bytes: Vec<u8>) -> (r: Option<Package>)
        ensures
            match r {
                Some(package) => zip_directory(bytes@) == Some(package.entries()),
                None => zip_directory(bytes@) is None,
            },
    {
        match zip_open(bytes) {
            Ok(archive) => Some(Package { archive }),
            Err(_) => None,
        }
    }

    /// The number of entries.
    pub fn len(&self) -> (n: usize)
        ensures
            n == self.entries().len(),
    {
        zip_len(&self.archive)
    }

    /// Opens the entry at `index`. `None` where there is no such entry or it
    /// cannot be opened.
    pub fn entry(&mut self, index: usize) -> (r: Option<Entry<'_>>)
        ensures
            final(self).entries() == old(self).entries(),
            match r {
                Some(entry) => index < old(self).entries().len() && opened(
                    old(self).entries()[index as int],
                ) == Some(entry.model()),
                None => index >= old(self).entries().len() || opened(
                    old(self).entries()[index as int],
                ) is None,
            },
    {
        if !zip_opens(&mut self.archive, index) {
            return None;
        }
        match zip_entry(&mut self.archive, index) {
            Ok(file) => Some(Entry { file }),
            Err(_) => None,
        }
    }
}

impl<'a> Entry<'a> {
    /// What the entry holds.
    pub closed spec fn model(&self) -> FileModel {
        file_model(self.file)
    }

    /// The name of the entry.
    pub fn name(&self) -> (name: String)
        ensures
            name@ == self.model().name,
    {
        zip_name(&self.file)
    }

    /// Whether the entry is a regular file and no directory.
    pub fn is_file(&self) -> (is_file: bool)
        ensures
            is_file == !names_directory(self.model().name),
    {
        zip_is_file(&self.file)
    }

    /// Reads the data of the entry to its end. `None` where reading fails.
    pub fn read(self) -> (r: Option<Vec<u8>>)
        ensures
            match r {
                Some(data) => self.model().content == Some(data@),
                None => self.model().content is None,
            },
    {
        let mut file = self.file;
        match zip_read(&mut file) {
            Ok(data) => Some(data),
            Err(_) => None,
        }
    }
}

} // verus!
