//! The accept-key computation, held to the RFC 6455 test vector.

use tide_websockets::handshake::accept_key;

#[test]
fn rfc6455_sample_nonce() {
    let accept = accept_key("dGhlIHNhbXBsZSBub25jZQ==");
    assert_eq!(accept, "s3pPLMBiTxaQ9kYGzzhZRbK+xOo=");
}

#[test]
fn accept_key_transforms_its_input() {
    // The digest-and-encode pipeline must actually run: the result is
    // never the key itself, and even the empty key yields a 28-character
    // encoding of a 20-byte digest.
    let key = "dGhlIHNhbXBsZSBub25jZQ==";
    assert_ne!(accept_key(key), key);
    let empty = accept_key("");
    assert_eq!(empty.len(), 28);
    assert_ne!(empty, "");
}

#[test]
fn accept_key_depends_on_every_character() {
    let a = accept_key("dGhlIHNhbXBsZSBub25jZQ==");
    let b = accept_key("dGhlIHNhbXBsZSBub25jZq==");
    assert_ne!(a, b);
}
