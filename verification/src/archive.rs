use vstd::prelude::*;
use std::io::Cursor;
use std::io::Read;
use zip::ZipArchive;

verus! {

/// `std::io::Cursor`, carried as an opaque value.
#[verifier::external_type_specification]
#[verifier::external_body]
#[verifier::reject_recursive_types(T)]
pub struct ExCursor<T>(Cursor<T>);

/// `zip::ZipArchive`, carried as an opaque value: what it holds is spoken of
/// through `archive_names`, `archive_entry` and `archive_text` only.
#[verifier::external_type_specification]
#[verifier::external_body]
#[verifier::reject_recursive_types(R)]
pub struct ExZipArchive<R>(ZipArchive<R>);

/// An archive that has been read from bytes held in memory.
pub type Archive = ZipArchive<Cursor<Vec<u8>>>;

/// What `ZipArchive::new` makes of `bytes`: the entry names of the archive
/// read, or the text of the error.
pub uninterp spec fn opened(bytes: Seq<u8>) -> Result<Seq<Seq<char>>, Seq<char>>;

/// The entry names of an archive, in the order in which `file_names` yields
/// them; a name that cannot be decoded stands in it as the empty text.
pub uninterp spec fn archive_names(archive: ZipArchive<Cursor<Vec<u8>>>) -> Seq<Seq<char>>;

/// What `by_name` answers for `path`: whether the entry found is a directory,
/// or the text of the error.
pub uninterp spec fn archive_entry(archive: ZipArchive<Cursor<Vec<u8>>>, path: Seq<char>) -> Result<bool, Seq<char>>;

/// What reading the entry at `path` to its end as text gives: the text, or the
/// text of the error that finding or reading it met.
pub uninterp spec fn archive_text(archive: ZipArchive<Cursor<Vec<u8>>>, path: Seq<char>) -> Result<Seq<char>, Seq<char>>;

/// Two archives that answer alike: the same names in the same order, and the
/// same answer and text for every path.
pub open spec fn same_contents(a: Archive, b: Archive) -> bool {
    &&& archive_names(a) == archive_names(b)
    &&& forall|path: Seq<char>| #[trigger] archive_entry(a, path) == archive_entry(b, path)
    &&& forall|path: Seq<char>| #[trigger] archive_text(a, path) == archive_text(b, path)
}

/// The answer to a lookup, as plain text.
pub open spec fn answer_view(answer: Result<bool, String>) -> Result<bool, Seq<char>> {
    match answer {
        Ok(is_dir) => Ok(is_dir),
        Err(reason) => Err(reason@),
    }
}

/// The outcome of reading an entry, as plain text.
pub open spec fn content_view(content: Result<String, String>) -> Result<Seq<char>, Seq<char>> {
    match content {
        Ok(body) => Ok(body@),
        Err(reason) => Err(reason@),
    }
}

/// What opening gave, as plain text: the names of the archive, or the reason.
pub open spec fn opening_view(r: Result<Archive, String>) -> Result<Seq<Seq<char>>, Seq<char>> {
    match r {
        Ok(archive) => Ok(archive_names(archive)),
        Err(reason) => Err(reason@),
    }
}

/// `ZipArchive::new` over a `Cursor` on `bytes`, with the error rendered by its
/// `Display`. Claims that the outcome is `opened` of the bytes; nothing is
/// claimed of which bytes make an archive.
#[verifier::external_body]
pub(crate) fn open_archive(bytes: Vec<u8>) -> (r: Result<Archive, String>)
    ensures
        opening_view(r) == opened(bytes@),
{
    match ZipArchive::new(Cursor::new(bytes)) {
        Ok(archive) => Ok(archive),
        Err(e) => Err(e.to_string()),
    }
}

/// `ZipArchive::file_names`, each name copied into a `String`. Claims that the
/// names come out as `archive_names` lists them.
#[verifier::external_body]
pub(crate) fn entry_names(archive: &Archive) -> (names: Vec<String>)
    ensures
        names.deep_view() == archive_names(*archive),
{
    archive.file_names().map(|name| name.unwrap_or_default().into_owned()).collect()
}

/// `ZipArchive::by_name`, then `ZipFile::is_dir` on the entry found; an error
/// is rendered by its `Display`. Claims that the answer is `archive_entry` of
/// the archive and the path, that a path which is not among the names is not
/// found, and that the archive answers afterwards as it did before.
#[verifier::external_body]
pub(crate) fn find_entry(archive: &mut Archive, path: &str) -> (answer: Result<bool, String>)
    ensures
        same_contents(*final(archive), *old(archive)),
        answer_view(answer) == archive_entry(*old(archive), path@),
        !archive_names(*old(archive)).contains(path@) ==> answer is Err,
{
    match archive.by_name(path) {
        Ok(file) => Ok(file.is_dir()),
        Err(e) => Err(e.to_string()),
    }
}

/// `ZipArchive::by_name`, then `Read::read_to_string` on the entry found; an
/// error of either is rendered by its `Display`. Claims that the outcome is
/// `archive_text` of the archive and the path, and that the archive answers
/// afterwards as it did before.
#[verifier::external_body]
pub(crate) fn read_entry(archive: &mut Archive, path: &str) -> (content: Result<String, String>)
    ensures
        same_contents(*final(archive), *old(archive)),
        content_view(content) == archive_text(*old(archive), path@),
{
    let mut body = String::new();
    match archive.by_name(path) {
        Ok(mut file) => match file.read_to_string(&mut body) {
            Ok(_) => Ok(body),
            Err(e) => Err(e.to_string()),
        },
        Err(e) => Err(e.to_string()),
    }
}

} // verus!
