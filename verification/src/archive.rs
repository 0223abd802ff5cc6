//! Trusted archive writers: a gzip-compressed tarball of named byte entries,
//! and an ar-style container of named byte members, both built entirely in
//! memory. Each result is a function of the names and contents alone, so it
//! is given a name that the pipeline's contracts are stated over.

use vstd::prelude::*;

verus! {

#[verifier::external_type_specification]
#[verifier::external_body]
pub struct ExIoError(std::io::Error);

/// The bytes of the gzip-compressed tar archive holding the given entries,
/// in order, each stored under its name with fixed (zeroed) metadata.
pub uninterp spec fn targz_of(entries: Seq<(Seq<char>, Seq<u8>)>) -> Seq<u8>;

/// The bytes of the ar-style container holding the given members, in order,
/// each stored under its name with fixed (zeroed) metadata.
pub uninterp spec fn ar_of(members: Seq<(Seq<char>, Seq<u8>)>) -> Seq<u8>;

/// The mathematical view of a list of named byte entries.
pub open spec fn entries_view(v: Seq<(String, Vec<u8>)>) -> Seq<(Seq<char>, Seq<u8>)> {
    v.map_values(|p: (String, Vec<u8>)| (p.0@, p.1@))
}

/// A name the tar writer accepts: nonempty, not the parent-directory
/// marker, and free of slashes and NUL characters.
pub open spec fn valid_entry_name(s: Seq<char>) -> bool {
    &&& s.len() > 0
    &&& s != ".."@
    &&& forall|i: int| 0 <= i < s.len() ==> (#[trigger] s[i]) != '/' && s[i] as u32 != 0
}

/// Relies on `tar::Builder` and `flate2::write::GzEncoder`: each entry is
/// appended under its name as a regular file with fixed mode and zero
/// mtime/uid/gid, then the stream is gzip-compressed with the default level
/// and a timestamp-free gzip header, so the bytes depend on the entries
/// alone. Writing into memory cannot fail, and the path encoding refuses
/// only an empty, absolute, `..`, slash-holding or NUL-holding name, so the
/// call succeeds whenever every entry name is valid.
#[verifier::external_body]
pub(crate) fn tar_gz(entries: &Vec<(String, Vec<u8>)>) -> (r: Result<Vec<u8>, std::io::Error>)
    ensures
        r matches Ok(b) ==> b@ == targz_of(entries_view(entries@)),
        (forall|i: int|
            0 <= i < entries_view(entries@).len() ==> valid_entry_name(
                #[trigger] entries_view(entries@)[i].0,
            )) ==> r is Ok,
{
    let enc = flate2::write::GzEncoder::new(Vec::new(), flate2::Compression::default());
    let mut builder = tar::Builder::new(enc);
    for (name, data) in entries.iter() {
        let mut header = tar::Header::new_gnu();
        header.set_size(data.len() as u64);
        header.set_mode(0o644);
        header.set_mtime(0);
        builder.append_data(&mut header, name.as_str(), data.as_slice())?;
    }
    builder.into_inner()?.finish()
}

/// Relies on `ar::Builder` and `ar::Header::new`: each member is appended
/// under its identifier with its size and every other header field zero, so
/// the bytes depend on the members alone. Every write goes into memory and
/// the declared size always matches the data handed over, so the call
/// cannot fail.
#[verifier::external_body]
pub(crate) fn ar_archive(members: &Vec<(String, Vec<u8>)>) -> (r: Result<Vec<u8>, std::io::Error>)
    ensures
        r matches Ok(b) ==> b@ == ar_of(entries_view(members@)),
        r is Ok,
{
    let mut builder = ar::Builder::new(Vec::new());
    for (name, data) in members.iter() {
        let header = ar::Header::new(name.as_bytes().to_vec(), data.len() as u64);
        builder.append(&header, data.as_slice())?;
    }
    builder.into_inner()
}

/// Relies on std's `Display` for `std::io::Error`: returns the error's own
/// description text, so a failure's cause can be carried along unchanged.
#[verifier::external_body]
pub(crate) fn io_error_message(e: &std::io::Error) -> String {
    e.to_string()
}

} // verus!
