use vstd::prelude::*;

use vstd::string::StrSliceExecFns;

use zip::ZipArchive;

use crate::model::TimelineError;
use crate::open_locations;
use crate::tokens::stream_reader_new;
use crate::tokens::HiddenReader;
use crate::tokens::JsonTokens;
use crate::TimelineRecordsIter;

verus! {

#[verifier::external_type_specification]
#[verifier::external_body]
#[verifier::reject_recursive_types(R)]
pub struct ExZipArchive<R>(ZipArchive<R>);

/// True exactly when `name` ends with `suffix`.
pub open spec fn ends_with(name: Seq<char>, suffix: Seq<char>) -> bool {
    name.len() >= suffix.len() && name.skip(name.len() - suffix.len()) == suffix
}

/// Compares the tail of the text with the suffix, character by character.
fn text_ends_with(name: &str, suffix: &str) -> (r: bool)
    ensures
        r == ends_with(name@, suffix@),
{
    let nl: usize = name.unicode_len();
    let sl: usize = suffix.unicode_len();
    if nl < sl {
        return false;
    }
    let base: usize = nl - sl;
    let mut i: usize = 0;
    while i < sl
        invariant
            i <= sl,
            nl == name@.len(),
            sl == suffix@.len(),
            base == nl - sl,
            forall|j: int| 0 <= j < i ==> name@[base + j] == suffix@[j],
        decreases sl - i,
    {
        if name.get_char(base + i) != suffix.get_char(i) {
            proof {
                assert(name@.skip(base as int)[i as int] == name@[base + i]);
            }
            return false;
        }
        i = i + 1;
    }
    proof {
        assert forall|j: int| 0 <= j < sl implies name@.skip(base as int)[j] == suffix@[j] by {
            assert(name@.skip(base as int)[j] == name@[base + j]);
        }
        assert(name@.skip(base as int) =~= suffix@);
    }
    true
}

/// The position of the first name that ends with the suffix, if any.
fn find_entry_with_suffix(names: &Vec<String>, suffix: &str) -> (r: Option<usize>)
    ensures
        (match r {
            Some(i) => i < names@.len() && ends_with(names@[i as int]@, suffix@) && forall|j: int|
                0 <= j < i ==> !ends_with(names@[j]@, suffix@),
            None => forall|j: int| 0 <= j < names@.len() ==> !ends_with(names@[j]@, suffix@),
        }),
{
    let mut i: usize = 0;
    while i < names.len()
        invariant
            i <= names@.len(),
            forall|j: int| 0 <= j < i ==> !ends_with(names@[j]@, suffix@),
        decreases names@.len() - i,
    {
        if text_ends_with(names[i].as_str(), suffix) {
            return Some(i);
        }
        i = i + 1;
    }
    None
}

/// Relies on zip's `ZipArchive::file_names`: yields the name of every
/// entry of the container, in the container's own enumeration order
/// (which is container-defined and not otherwise guaranteed).
#[verifier::external_body]
fn archive_entry_names<A: std::io::Read + std::io::Seek>(archive: &ZipArchive<A>) -> (names: Vec<
    String,
>) {
    archive.file_names().map(|name| name.to_string()).collect()
}

/// Relies on zip's `ZipArchive::by_name`: opens the entry with the given
/// name for reading; its bytes become a fresh byte source of this crate.
#[verifier::external_body]
fn open_entry_reader<'a, A: std::io::Read + std::io::Seek>(
    archive: &'a mut ZipArchive<A>,
    name: &str,
) -> (r: Result<HiddenReader<'a>, ()>) {
    match archive.by_name(name) {
        Ok(file) => Ok(stream_reader_new(file)),
        Err(_) => Err(()),
    }
}

/// Opens the record sequence out of a zip-like container: scans the
/// entry names for the first one ending in `Records.json`, opens that
/// entry as a byte stream, and hands the stream to the document locator.
///
/// Fails with `NoArchiveEntry` where no entry name has the suffix, with
/// `Archive` where the entry cannot be opened, and as the document
/// locator does for the entry's bytes.
pub fn read_timeline_records_from_archive<'a, A: std::io::Read + std::io::Seek>(
    archive: &'a mut ZipArchive<A>,
) -> (r: Result<TimelineRecordsIter<'a>, TimelineError>)
    ensures
        r matches Ok(it) ==> it.wf() && !it.finished(),
{
    let names = archive_entry_names(archive);
    let idx = match find_entry_with_suffix(&names, "Records.json") {
        Some(i) => i,
        None => {
            return Err(TimelineError::NoArchiveEntry);
        },
    };
    let source = match open_entry_reader(archive, names[idx].as_str()) {
        Ok(h) => h,
        Err(_) => {
            return Err(TimelineError::Archive);
        },
    };
    open_locations(JsonTokens::from_source(source))
}

} // verus!
