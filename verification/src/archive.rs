//! Reading a zip archive held in memory.
use vstd::prelude::*;

verus! {

#[verifier::external_type_specification]
#[verifier::external_body]
#[verifier::reject_recursive_types(T)]
pub struct ExCursor<T>(std::io::Cursor<T>);

#[verifier::external_type_specification]
#[verifier::external_body]
#[verifier::reject_recursive_types(R)]
pub struct ExZipArchive<R>(zip::ZipArchive<R>);

#[verifier::external_type_specification]
#[verifier::external_body]
pub struct ExZipError(zip::result::ZipError);

/// The entries of an opened archive, one per file in its index, in index
/// order. Each entry is its name; whether `by_index` opens it (it does not for
/// an unsupported compression method, an encrypted entry or a damaged local
/// header); and the bytes that reading it to the end yields, or `None` when
/// that fails (a damaged stream or a checksum mismatch).
pub uninterp spec fn archive_entries(a: zip::ZipArchive<std::io::Cursor<Vec<u8>>>) -> Seq<
    (Seq<char>, bool, Option<Seq<u8>>),
>;

/// What opening `bytes` as a zip archive gives: `None` when they are not a
/// readable archive, and otherwise its entries (see [`archive_entries`]).
pub uninterp spec fn zip_entries(bytes: Seq<u8>) -> Option<Seq<(Seq<char>, bool, Option<Seq<u8>>)>>;

/// Opens `bytes` as a zip archive (`zip::ZipArchive::new` over a
/// `std::io::Cursor`). It succeeds exactly on the byte strings that encode an
/// archive, and the archive it gives holds the entries those bytes encode;
/// which byte strings those are is the zip crate's parse, named, not spelled out.
#[verifier::external_body]
pub(crate) fn open_zip(bytes: Vec<u8>) -> (r: Result<
    zip::ZipArchive<std::io::Cursor<Vec<u8>>>,
    zip::result::ZipError,
>)
    ensures
        r is Ok <==> zip_entries(bytes@) is Some,
        r matches Ok(a) ==> Some(archive_entries(a)) == zip_entries(bytes@),
{
    zip::ZipArchive::new(std::io::Cursor::new(bytes))
}

/// The number of entries in the archive (`ZipArchive::len`).
#[verifier::external_body]
pub(crate) fn zip_len(a: &zip::ZipArchive<std::io::Cursor<Vec<u8>>>) -> (n: usize)
    ensures
        n == archive_entries(*a).len(),
{
    a.len()
}

/// The name of entry `i` (`ZipArchive::by_index`, then `ZipFile::name`). It
/// succeeds exactly when there is an entry `i` and `by_index` opens it, and it
/// leaves the archive's entries as they were.
#[verifier::external_body]
pub(crate) fn zip_entry_name(a: &mut zip::ZipArchive<std::io::Cursor<Vec<u8>>>, i: usize) -> (r:
    Result<String, zip::result::ZipError>)
    ensures
        archive_entries(*final(a)) == archive_entries(*old(a)),
        r is Ok <==> i < archive_entries(*old(a)).len() && archive_entries(*old(a))[i as int].1,
        r matches Ok(name) ==> name@ == archive_entries(*old(a))[i as int].0,
{
    match a.by_index(i) {
        Ok(entry) => Ok(entry.name().to_string()),
        Err(e) => Err(e),
    }
}

/// The bytes that reading entry `i` yields (`ZipArchive::by_index`, then
/// `Read::read_to_end` on the entry). It succeeds exactly when there is an
/// entry `i`, `by_index` opens it and reading it to the end succeeds, and it
/// leaves the archive's entries as they were.
#[verifier::external_body]
pub(crate) fn zip_entry_data(a: &mut zip::ZipArchive<std::io::Cursor<Vec<u8>>>, i: usize) -> (r:
    Result<Vec<u8>, zip::result::ZipError>)
    ensures
        archive_entries(*final(a)) == archive_entries(*old(a)),
        r is Ok <==> i < archive_entries(*old(a)).len() && archive_entries(*old(a))[i as int].1
            && archive_entries(*old(a))[i as int].2 is Some,
        r matches Ok(data) ==> archive_entries(*old(a))[i as int].2 == Some(data@),
{
    let mut entry = a.by_index(i)?;
    let mut data = Vec::new();
    match std::io::Read::read_to_end(&mut entry, &mut data) {
        Ok(_) => Ok(data),
        Err(e) => Err(zip::result::ZipError::Io(e)),
    }
}

} // verus!
