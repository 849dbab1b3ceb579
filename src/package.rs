//! The runtime distribution: a zip archive whose `exefs/subsdk9` entry is
//! the runtime module.
use vstd::prelude::*;
use crate::error::Error;

verus! {

/// The archive entry that holds the runtime module.
pub const RUNTIME_ENTRY: &'static str = "exefs/subsdk9";

/// The runtime module taken from a distribution archive.
#[derive(Debug, Clone, PartialEq, Eq)]
pub struct Exefs {
    pub subsdk1: Vec<u8>,
}

/// The decompressed bytes of the entry `name` of the zip archive `archive`,
/// or nothing when the archive cannot be read or has no such entry.
pub uninterp spec fn zip_entry(archive: Seq<u8>, name: Seq<char>) -> Option<Seq<u8>>;

/// Relies on zip's `ZipArchive::new`, `ZipArchive::by_name_decrypt` (with
/// an empty password, which an unencrypted entry ignores) and the entry's
/// `Read`: they find an entry by name and inflate it, with an error for an
/// unreadable archive, a missing entry, one that needs a password, or a
/// corrupt one; the outcome depends on the bytes and the name alone.
#[verifier::external_body]
fn read_zip_entry(archive: &[u8], name: &str) -> (r: Option<Vec<u8>>)
    ensures
        match r {
            Some(v) => zip_entry(archive@, name@) == Some(v@),
            None => zip_entry(archive@, name@) is None,
        },
{
    let mut zip = zip::ZipArchive::new(std::io::Cursor::new(archive)).ok()?;
    let mut file = zip.by_name_decrypt(name, &[]).ok()?.ok()?;
    let mut out = Vec::new();
    std::io::Read::read_to_end(&mut file, &mut out).ok()?;
    Some(out)
}

/// The runtime module, given what the archive's entry held.
pub fn exefs_from_entry(entry: Option<Vec<u8>>) -> (r: Result<Exefs, Error>)
    ensures
        match entry {
            Some(v) => r == Ok::<Exefs, Error>(Exefs { subsdk1: v }),
            None => r == Err::<Exefs, Error>(Error::ZipError),
        },
{
    match entry {
        Some(v) => Ok(Exefs { subsdk1: v }),
        None => Err(Error::ZipError),
    }
}

/// Takes the runtime module out of a distribution archive.
pub fn read_exefs(archive: &[u8]) -> (r: Result<Exefs, Error>)
    ensures
        match zip_entry(archive@, RUNTIME_ENTRY@) {
            Some(b) => r is Ok && r->Ok_0.subsdk1@ == b,
            None => r == Err::<Exefs, Error>(Error::ZipError),
        },
{
    exefs_from_entry(read_zip_entry(archive, RUNTIME_ENTRY))
}

} // verus!
