use vstd::prelude::*;

verus! {

/// Whether the first bytes of a connection look like a TLS handshake record: at least five
/// bytes, content type 0x16, major version 3 and minor version 1 to 4.
pub open spec fn is_tls_handshake(peeked: Seq<u8>) -> bool {
    peeked.len() >= 5 && peeked[0] == 0x16 && peeked[1] == 0x03 && 0x01 <= peeked[2] <= 0x04
}

/// Whether the bytes peeked from a new connection start a TLS handshake.
pub fn looks_like_tls(peeked: &[u8]) -> (out: bool)
    ensures
        out == is_tls_handshake(peeked@),
{
    if peeked.len() < 5 {
        return false;
    }
    let content_type = peeked[0];
    let version_major = peeked[1];
    let version_minor = peeked[2];
    content_type == 0x16 && version_major == 0x03 && (version_minor >= 0x01 && version_minor
        <= 0x04)
}

} // verus!
