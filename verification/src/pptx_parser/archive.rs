//! The ZIP container of a PPTX file, held in memory.

use vstd::prelude::*;

verus! {

/// `std::io::Error`, carried through unexamined.
#[verifier::external_type_specification]
#[verifier::external_body]
pub struct ExIoError(std::io::Error);

/// `zip::result::ZipError`, carried through unexamined.
#[verifier::external_type_specification]
#[verifier::external_body]
pub struct ExZipError(zip::result::ZipError);

/// `std::io::Cursor`, the in-memory reader under the archive.
#[verifier::external_type_specification]
#[verifier::external_body]
#[verifier::reject_recursive_types(T)]
pub struct ExCursor<T>(std::io::Cursor<T>);

/// `zip::read::ZipArchive`.
#[verifier::external_type_specification]
#[verifier::external_body]
#[verifier::reject_recursive_types(R)]
pub struct ExZipArchive<R>(zip::read::ZipArchive<R>);

/// A PPTX container read from bytes in memory.
pub type PptxArchive = zip::read::ZipArchive<std::io::Cursor<Vec<u8>>>;

/// What the archive holds, as text: each entry that `by_name` finds maps to
/// its content read as UTF-8 text, or to `None` when reading it as text
/// fails.
pub uninterp spec fn archive_texts(archive: zip::read::ZipArchive<std::io::Cursor<Vec<u8>>>) -> Map<
    Seq<char>,
    Option<Seq<char>>,
>;

/// The archive that `ZipArchive::new` reads from these bytes, as the map
/// `archive_texts` describes (`None` when the bytes do not open as a ZIP
/// archive). Reading from an in-memory cursor depends on the bytes alone.
pub uninterp spec fn zip_entries_of(bytes: Seq<u8>) -> Option<Map<Seq<char>, Option<Seq<char>>>>;

/// `ZipArchive::new` over the bytes of a PPTX file: whether the bytes open,
/// and what the opened archive holds, is a function of the bytes, named
/// `zip_entries_of`.
#[verifier::external_body]
pub(crate) fn open_archive(bytes: Vec<u8>) -> (r: Result<PptxArchive, zip::result::ZipError>)
    ensures
        match r {
            Ok(a) => zip_entries_of(bytes@) == Some(archive_texts(a)),
            Err(_) => zip_entries_of(bytes@) is None,
        },
{
    zip::ZipArchive::new(std::io::Cursor::new(bytes))
}

/// `ZipArchive::by_name` followed by `Read::read_to_string` on the entry:
/// `None` when the entry is not found, else the entry's text or the read
/// error. Looking an entry up leaves what the archive holds unchanged.
#[verifier::external_body]
pub(crate) fn read_entry_text(archive: &mut PptxArchive, name: &str) -> (r: Option<Result<String, std::io::Error>>)
    ensures
        archive_texts(*final(archive)) == archive_texts(*old(archive)),
        match r {
            None => !archive_texts(*old(archive)).dom().contains(name@),
            Some(Ok(t)) => archive_texts(*old(archive)).dom().contains(name@) && archive_texts(
                *old(archive),
            )[name@] == Some(t@),
            Some(Err(_)) => archive_texts(*old(archive)).dom().contains(name@) && archive_texts(
                *old(archive),
            )[name@] is None,
        },
{
    match archive.by_name(name) {
        Ok(mut file) => {
            let mut text = String::new();
            Some(std::io::Read::read_to_string(&mut file, &mut text).map(|_| text))
        },
        Err(_) => None,
    }
}

} // verus!
