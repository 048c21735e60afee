use vstd::prelude::*;
use vstd::utf8::encode_utf8;

use crate::config::BackendKind;

verus! {

/// The text that starts every error a backend reports in place of a result.
/// GCS objects are fetched over plain HTTP and share its prefix.
pub open spec fn prefix_text(kind: BackendKind) -> Seq<char> {
    match kind {
        BackendKind::Http => "HTTP ERROR: "@,
        BackendKind::S3 => "S3 ERROR: "@,
        BackendKind::Gcs => "HTTP ERROR: "@,
        BackendKind::Azure => "AZURE ERROR: "@,
    }
}

/// The detail given for a path without `/`.
pub open spec fn bad_path_text() -> Seq<char> {
    "bad path"@
}

/// The detail given for a window that cannot be requested: a non-empty
/// window without a last byte, or (for Azure) one that runs backwards.
pub open spec fn bad_range_text() -> Seq<char> {
    "bad range"@
}

/// An error message: the kind's prefix, then the detail.
pub open spec fn error_text(kind: BackendKind, detail: Seq<char>) -> Seq<char> {
    prefix_text(kind) + detail
}

/// An error payload: the UTF-8 bytes of the kind's prefix, then the detail
/// bytes (a message, or the body that the backend sent).
pub open spec fn error_payload(kind: BackendKind, detail: Seq<u8>) -> Seq<u8> {
    encode_utf8(prefix_text(kind)) + detail
}

/// The prefix of the errors of `kind`.
pub fn error_prefix(kind: BackendKind) -> (r: &'static str)
    ensures
        r@ == prefix_text(kind),
{
    match kind {
        BackendKind::Http => "HTTP ERROR: ",
        BackendKind::S3 => "S3 ERROR: ",
        BackendKind::Gcs => "HTTP ERROR: ",
        BackendKind::Azure => "AZURE ERROR: ",
    }
}

/// The message for an error of `kind` with the given detail.
pub fn error_message(kind: BackendKind, detail: &str) -> (r: String)
    ensures
        r@ == error_text(kind, detail@),
{
    String::from_str(error_prefix(kind)).concat(detail)
}

/// The message for a malformed path, for `kind`.
pub fn bad_path_message(kind: BackendKind) -> (r: String)
    ensures
        r@ == error_text(kind, bad_path_text()),
{
    error_message(kind, "bad path")
}

/// The payload for an error of `kind` with the given detail bytes.
pub fn error_bytes(kind: BackendKind, detail: &[u8]) -> (r: Vec<u8>)
    ensures
        r@ == error_payload(kind, detail@),
{
    let mut out = error_prefix(kind).as_bytes_vec();
    let ghost start = out@;
    let mut i: usize = 0;
    while i < detail.len()
        invariant
            i <= detail@.len(),
            start == encode_utf8(prefix_text(kind)),
            out@ == start + detail@.subrange(0, i as int),
        decreases detail@.len() - i,
    {
        out.push(detail[i]);
        i += 1;
        assert(out@ =~= start + detail@.subrange(0, i as int));
    }
    assert(detail@.subrange(0, detail@.len() as int) =~= detail@);
    out
}

/// The payload for a malformed path, for `kind`.
pub fn bad_path_bytes(kind: BackendKind) -> (r: Vec<u8>)
    ensures
        r@ == error_payload(kind, encode_utf8(bad_path_text())),
{
    let detail = "bad path".as_bytes_vec();
    error_bytes(kind, detail.as_slice())
}

/// The payload for a window that cannot be requested, for `kind`.
pub fn bad_range_bytes(kind: BackendKind) -> (r: Vec<u8>)
    ensures
        r@ == error_payload(kind, encode_utf8(bad_range_text())),
{
    let detail = "bad range".as_bytes_vec();
    error_bytes(kind, detail.as_slice())
}

/// Every error payload begins with the UTF-8 bytes of its backend's prefix,
/// whatever the detail.
pub proof fn law_error_payload_begins_with_prefix(kind: BackendKind, detail: Seq<u8>)
    ensures
        error_payload(kind, detail).subrange(0, encode_utf8(prefix_text(kind)).len() as int)
            == encode_utf8(prefix_text(kind)),
{
    assert(error_payload(kind, detail).subrange(0, encode_utf8(prefix_text(kind)).len() as int)
        =~= encode_utf8(prefix_text(kind)));
}

} // verus!
