//! The block cipher and the digest, as provided by `soft_aes` and `sha1`.
use sha1::Digest;
use vstd::prelude::*;

verus! {

/// Block size of AES, in bytes.
pub const AES_BLOCK_SIZE: usize = 16;

/// AES-CBC decryption of `data` under `key` and `iv`, without padding.
pub uninterp spec fn aes_cbc_decrypt_of(key: Seq<u8>, iv: Seq<u8>, data: Seq<u8>) -> Seq<u8>;

/// AES-CBC encryption of `data` under `key` and `iv`, without padding.
pub uninterp spec fn aes_cbc_encrypt_of(key: Seq<u8>, iv: Seq<u8>, data: Seq<u8>) -> Seq<u8>;

/// The SHA-1 digest of `data`.
pub uninterp spec fn sha1_of(data: Seq<u8>) -> Seq<u8>;

/// A key length that AES accepts: 128, 192 or 256 bits.
pub open spec fn aes_key_len_ok(n: nat) -> bool {
    n == 16 || n == 24 || n == 32
}

/// When an unpadded CBC operation succeeds: whole blocks, and a valid key
/// unless there is no block to process.
pub open spec fn cbc_accepts(key_len: nat, data_len: nat) -> bool {
    data_len % (AES_BLOCK_SIZE as nat) == 0 && (data_len == 0 || aes_key_len_ok(key_len))
}

/// Relies on `soft_aes::aes::aes_dec_cbc` with no padding: it fails when the
/// data is not whole blocks, or when a block is processed under a key whose
/// length is not 16, 24 or 32; otherwise it returns one plaintext byte per
/// ciphertext byte.
#[verifier::external_body]
pub(crate) fn aes_dec_cbc(data: &[u8], key: &[u8], iv: &[u8; 16]) -> (r: Result<Vec<u8>, String>)
    ensures
        r is Ok <==> cbc_accepts(key@.len(), data@.len()),
        r is Ok ==> r->Ok_0@ == aes_cbc_decrypt_of(key@, iv@, data@),
        r is Ok ==> r->Ok_0@.len() == data@.len(),
{
    match soft_aes::aes::aes_dec_cbc(data, key, iv, None) {
        Ok(v) => Ok(v),
        Err(e) => Err(e.to_string()),
    }
}

/// Relies on `soft_aes::aes::aes_enc_cbc` with no padding: it fails when the
/// data is not whole blocks, or when a block is processed under a key whose
/// length is not 16, 24 or 32; otherwise it returns one ciphertext byte per
/// plaintext byte.
#[verifier::external_body]
pub(crate) fn aes_enc_cbc(data: &[u8], key: &[u8], iv: &[u8; 16]) -> (r: Result<Vec<u8>, String>)
    ensures
        r is Ok <==> cbc_accepts(key@.len(), data@.len()),
        r is Ok ==> r->Ok_0@ == aes_cbc_encrypt_of(key@, iv@, data@),
        r is Ok ==> r->Ok_0@.len() == data@.len(),
{
    match soft_aes::aes::aes_enc_cbc(data, key, iv, None) {
        Ok(v) => Ok(v),
        Err(e) => Err(e.to_string()),
    }
}

/// Relies on `sha1::Sha1::digest`: the 20-byte SHA-1 digest of the data.
#[verifier::external_body]
pub(crate) fn sha1_digest(data: &[u8]) -> (r: [u8; 20])
    ensures
        r@ == sha1_of(data@),
{
    sha1::Sha1::digest(data).into()
}

} // verus!
