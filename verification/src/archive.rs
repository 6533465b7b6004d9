use vstd::prelude::*;
use vstd::string::{StrSliceExecFns, StringExecFns, StringSliceAdditionalSpecFns};

verus! {

/// The bytes of an archive holding one store-only entry with the given
/// name and content.  The entry options are fixed (no compression, a
/// fixed system marker, the format's default timestamp), so the archive
/// is a function of the name and the content alone; its exact bytes are
/// not spelled out here.
pub uninterp spec fn stored_zip_of(name: Seq<char>, content: Seq<u8>) -> Seq<u8>;

/// Relies on zip's `ZipWriter::new`, `start_file`, `write_all` and
/// `finish` over an in-memory buffer: they build an archive with a
/// single store-only entry named `name` holding `content`.  The options
/// passed pin every varying field (stored entry, Unix system marker,
/// the format's fixed default timestamp), so the resulting bytes depend
/// on the name and the content alone.  The call succeeds whenever the
/// name fits the format's sixteen-bit name-length header field and the
/// content stays within the format's thirty-two-bit size fields: writes
/// to the in-memory buffer cannot fail, and those two header fields are
/// the only failing conversions on this path.
#[verifier::external_body]
fn zip_stored_entry(name: &str, content: &Vec<u8>) -> (r: Result<Vec<u8>, String>)
    ensures
        r matches Ok(bytes) ==> bytes@ == stored_zip_of(name@, content@),
        name.spec_bytes().len() <= 0xFFFF && content@.len() <= 0xFFFF_FFFF ==> r is Ok,
{
    let mut writer = zip::ZipWriter::new(std::io::Cursor::new(Vec::new()));
    let options = zip::write::SimpleFileOptions::DEFAULT.compression_method(
        zip::CompressionMethod::Stored,
    ).system(zip::System::Unix);
    if let Err(e) = writer.start_file(name, options) {
        return Err(e.to_string());
    }
    if let Err(e) = std::io::Write::write_all(&mut writer, content.as_slice()) {
        return Err(e.to_string());
    }
    match writer.finish() {
        Ok(cursor) => Ok(cursor.into_inner()),
        Err(e) => Err(e.to_string()),
    }
}

/// Stores `content` as the single uncompressed entry `filename` of a new
/// archive, returning the archive's bytes, or a failure message carrying
/// the underlying error.  It succeeds whenever the name's UTF-8 bytes
/// fit the format's sixteen-bit name-length field and the content stays
/// within its thirty-two-bit size fields; a failure message is never
/// empty.
pub fn build_archive(filename: &str, content: &Vec<u8>) -> (r: Result<Vec<u8>, String>)
    ensures
        r matches Ok(bytes) ==> bytes@ == stored_zip_of(filename@, content@),
        filename.spec_bytes().len() <= 0xFFFF && content@.len() <= 0xFFFF_FFFF ==> r is Ok,
        r matches Err(m) ==> (exists|detail: Seq<char>|
            m@ == "Can`t create ZIP file: "@ + detail) && m@.len() > 0,
{
    proof {
        reveal_strlit("Can`t create ZIP file: ");
    }
    match zip_stored_entry(filename, content) {
        Ok(bytes) => Ok(bytes),
        Err(e) => {
            let mut m = String::from_str("Can`t create ZIP file: ");
            m.append(e.as_str());
            proof {
                assert(m@ == "Can`t create ZIP file: "@ + e@);
            }
            Err(m)
        },
    }
}

} // verus!
