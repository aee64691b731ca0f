//! Reading single entries of a ZIP archive that is held in memory.

use vstd::prelude::*;

verus! {

/// The error text with which opening the bytes as a ZIP archive fails, if it does.
pub uninterp spec fn zip_open_error(archive: Seq<u8>) -> Option<Seq<char>>;

/// The uncompressed size that the archive records for the entry of that name, where
/// the entry is there and can be opened.
pub uninterp spec fn zip_entry_size(archive: Seq<u8>, name: Seq<char>) -> Option<u64>;

/// What reading the entry of that name to its end gives: its bytes or an error text.
pub uninterp spec fn zip_entry_content(archive: Seq<u8>, name: Seq<char>) -> Result<
    Seq<u8>,
    Seq<char>,
>;

/// Calls `zip::ZipArchive::new` on the bytes: whether it fails, and with which text,
/// is a function of the bytes.
#[verifier::external_body]
pub(crate) fn open_error(archive: &[u8]) -> (error: Option<String>)
    ensures
        match error {
            Some(text) => zip_open_error(archive@) == Some(text@),
            None => zip_open_error(archive@) is None,
        },
{
    zip::ZipArchive::new(std::io::Cursor::new(archive)).err().map(|e| e.to_string())
}

/// Calls `zip::ZipArchive::by_name` and `zip::read::ZipFile::size`: the recorded size
/// is a function of the bytes and the name.
#[verifier::external_body]
pub(crate) fn entry_size(archive: &[u8], name: &str) -> (size: Option<u64>)
    ensures
        size == zip_entry_size(archive@, name@),
{
    let mut zip = zip::ZipArchive::new(std::io::Cursor::new(archive)).ok()?;
    let entry = zip.by_name(name).ok()?;
    Some(entry.size())
}

/// Calls `zip::ZipArchive::by_name` and reads the entry to its end: the bytes, or the
/// text of the error, are a function of the archive's bytes and the name.
#[verifier::external_body]
pub(crate) fn entry_content(archive: &[u8], name: &str) -> (content: Result<Vec<u8>, String>)
    ensures
        match content {
            Ok(bytes) => zip_entry_content(archive@, name@) == Ok::<Seq<u8>, Seq<char>>(bytes@),
            Err(text) => zip_entry_content(archive@, name@) == Err::<Seq<u8>, Seq<char>>(text@),
        },
{
    let mut zip = zip::ZipArchive::new(std::io::Cursor::new(archive)).map_err(|e| e.to_string())?;
    let mut entry = zip.by_name(name).map_err(|e| e.to_string())?;
    let mut bytes = Vec::new();
    std::io::Read::read_to_end(&mut entry, &mut bytes).map_err(|e| e.to_string())?;
    Ok(bytes)
}

} // verus!
