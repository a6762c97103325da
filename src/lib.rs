//! Repackaging of an SK+SA1 container: the first-stage kernel is checked
//! against its trust anchor and a payload is installed as a freshly
//! encrypted second-stage image.
use vstd::prelude::*;

pub mod args;
pub mod crypto;
pub mod hex;
pub mod image;
pub mod records;

use crate::crypto::{
    aes_cbc_decrypt_of, aes_cbc_encrypt_of, aes_dec_cbc, aes_enc_cbc, sha1_digest, sha1_of,
    AES_BLOCK_SIZE,
};
use crate::hex::{hex_of, to_hex};
use crate::image::{
    be_bytes, make_sa1, sa1_header, sa1_image, ENTRYPOINT_OFFSET, ROM_HEADER_SIZE, SKSA_MIN_BYTES,
    SK_SIZE, UNZIP_BUF_OFFSET,
};
use crate::records::{CmdHead, Virage2};

verus! {

/// Why a container could not be repackaged.
#[derive(Debug)]
pub enum BBBSError {
    /// The container is shorter than kernel plus info block; holds its length.
    SKSATooShort(usize),
    /// The payload does not fit the second-stage slot; holds its length and the capacity.
    PayloadTooLong(usize, u32),
    /// The decrypted kernel does not hash to the trust anchor's digest;
    /// holds the computed and the expected digest in hexadecimal.
    InvalidSKHash(String, String),
    /// The block cipher refused its key, IV or data; holds its message.
    CipherFailure(String),
}

impl BBBSError {
    /// The kernel-digest mismatch between `calculated` and `expected`.
    pub fn from_hashes(calculated: &[u8; 20], expected: &[u8; 20]) -> (r: Self)
        ensures
            r matches BBBSError::InvalidSKHash(c, e) && c@ == hex_of(calculated@) && e@ == hex_of(
                expected@,
            ),
    {
        BBBSError::InvalidSKHash(to_hex(calculated), to_hex(expected))
    }
}

/// Bytes a payload may have in a second-stage slot of `size` bytes.
pub open spec fn payload_capacity(size: u32) -> int {
    size - ROM_HEADER_SIZE
}

/// Both length checks pass: the container holds the kernel and the info
/// block, and the payload fits beside the header in its slot.
pub open spec fn lengths_ok(sksa: Seq<u8>, payload: Seq<u8>, cmd: CmdHead) -> bool {
    sksa.len() >= SKSA_MIN_BYTES && payload.len() <= payload_capacity(cmd.size)
}

/// The kernel's plaintext under the key pair derived from the boot ROM.
pub open spec fn sk_plain(sksa: Seq<u8>, sk_key: Seq<u8>, sk_iv: Seq<u8>) -> Seq<u8> {
    aes_cbc_decrypt_of(sk_key, sk_iv, sksa.subrange(0, SK_SIZE as int))
}

/// The kernel is the one the trust anchor vouches for.
pub open spec fn kernel_verified(sksa: Seq<u8>, v: Virage2, sk_key: Seq<u8>, sk_iv: Seq<u8>) -> bool {
    sha1_of(sk_plain(sksa, sk_key, sk_iv)) == v.sk_hash@
}

/// The session key, recovered from the command header with the boot-application key.
pub open spec fn session_key(cmd: CmdHead, v: Virage2) -> Seq<u8> {
    aes_cbc_decrypt_of(v.boot_app_key@, cmd.common_cmd_iv@, cmd.key@)
}

/// The output container: the untouched kernel and info block, then the
/// encrypted second-stage image.
pub open spec fn repacked(sksa: Seq<u8>, payload: Seq<u8>, cmd: CmdHead, v: Virage2) -> Seq<u8> {
    sksa.subrange(0, SKSA_MIN_BYTES as int) + aes_cbc_encrypt_of(
        session_key(cmd, v),
        cmd.iv@,
        sa1_image(payload, cmd.size as nat),
    )
}

/// A repackaged container starts with the first `SKSA_MIN_BYTES` bytes of
/// the original, unchanged.
pub proof fn lemma_repacked_prefix(sksa: Seq<u8>, payload: Seq<u8>, cmd: CmdHead, v: Virage2)
    requires
        sksa.len() >= SKSA_MIN_BYTES,
    ensures
        repacked(sksa, payload, cmd, v).subrange(0, SKSA_MIN_BYTES as int) == sksa.subrange(
            0,
            SKSA_MIN_BYTES as int,
        ),
{
    assert(repacked(sksa, payload, cmd, v).subrange(0, SKSA_MIN_BYTES as int) =~= sksa.subrange(
        0,
        SKSA_MIN_BYTES as int,
    ));
}

/// Rejects a container too short to hold the kernel and the info block.
pub fn check_sksa_len(sksa: &[u8]) -> (r: Result<(), BBBSError>)
    ensures
        sksa@.len() >= SKSA_MIN_BYTES ==> r is Ok,
        sksa@.len() < SKSA_MIN_BYTES ==> r == Err::<(), BBBSError>(
            BBBSError::SKSATooShort(sksa@.len() as usize),
        ),
{
    if sksa.len() < SKSA_MIN_BYTES {
        Err(BBBSError::SKSATooShort(sksa.len()))
    } else {
        Ok(())
    }
}

/// Rejects a payload that does not fit beside the header in a slot of `size` bytes.
pub fn check_payload_len(payload_len: usize, size: u32) -> (r: Result<(), BBBSError>)
    requires
        size >= ROM_HEADER_SIZE,
    ensures
        payload_len <= payload_capacity(size) ==> r is Ok,
        payload_len > payload_capacity(size) ==> r == Err::<(), BBBSError>(
            BBBSError::PayloadTooLong(payload_len, (size - ROM_HEADER_SIZE) as u32),
        ),
{
    let cap: u32 = size - ROM_HEADER_SIZE as u32;
    if payload_len > cap as usize {
        Err(BBBSError::PayloadTooLong(payload_len, cap))
    } else {
        Ok(())
    }
}

/// Compares the computed kernel digest with the trust anchor's.
pub fn check_sk_hash(calculated: &[u8; 20], expected: &[u8; 20]) -> (r: Result<(), BBBSError>)
    ensures
        calculated@ == expected@ ==> r is Ok,
        calculated@ != expected@ ==> (r matches Err(BBBSError::InvalidSKHash(c, e)) && c@
            == hex_of(calculated@) && e@ == hex_of(expected@)),
{
    let mut i: usize = 0;
    while i < 20
        invariant
            i <= 20,
            calculated@.subrange(0, i as int) == expected@.subrange(0, i as int),
        decreases 20 - i,
    {
        if calculated[i] != expected[i] {
            proof {
                assert(calculated@[i as int] != expected@[i as int]);
            }
            return Err(BBBSError::from_hashes(calculated, expected));
        }
        i = i + 1;
        assert(calculated@.subrange(0, i as int) =~= expected@.subrange(0, i as int));
    }
    assert(calculated@ =~= calculated@.subrange(0, 20));
    assert(expected@ =~= expected@.subrange(0, 20));
    Ok(())
}

/// The plaintext second-stage image for `payload` in a slot of `size` bytes.
pub fn build_sa1(payload: Vec<u8>, size: u32) -> (r: Vec<u8>)
    requires
        size >= ROM_HEADER_SIZE,
        payload@.len() <= payload_capacity(size),
    ensures
        r@ == sa1_image(payload@, size as nat),
        r@.len() == size,
        r@.subrange(ENTRYPOINT_OFFSET as int, ENTRYPOINT_OFFSET + 4) == be_bytes(UNZIP_BUF_OFFSET),
{
    let ghost p = payload@;
    let mut rv = make_sa1(payload);
    while rv.len() < size as usize
        invariant
            ROM_HEADER_SIZE + p.len() <= rv@.len() <= size,
            rv@ == sa1_header() + p + Seq::new(
                (rv@.len() - ROM_HEADER_SIZE - p.len()) as nat,
                |i: int| 0u8,
            ),
        decreases size - rv@.len(),
    {
        rv.push(0u8);
        assert(rv@ =~= sa1_header() + p + Seq::new(
            (rv@.len() - ROM_HEADER_SIZE - p.len()) as nat,
            |i: int| 0u8,
        ));
    }
    assert(rv@.subrange(ENTRYPOINT_OFFSET as int, ENTRYPOINT_OFFSET + 4) =~= be_bytes(
        UNZIP_BUF_OFFSET,
    ));
    rv
}

/// The output container: the first `SKSA_MIN_BYTES` bytes of `sksa`, then `sa1_enc`.
pub fn assemble(sksa: &[u8], sa1_enc: &[u8]) -> (r: Vec<u8>)
    requires
        sksa@.len() >= SKSA_MIN_BYTES,
    ensures
        r@ == sksa@.subrange(0, SKSA_MIN_BYTES as int) + sa1_enc@,
{
    let mut out: Vec<u8> = Vec::new();
    let mut i: usize = 0;
    while i < SKSA_MIN_BYTES
        invariant
            i <= SKSA_MIN_BYTES <= sksa@.len(),
            out@ == sksa@.subrange(0, i as int),
        decreases SKSA_MIN_BYTES - i,
    {
        out.push(sksa[i]);
        i = i + 1;
        assert(out@ =~= sksa@.subrange(0, i as int));
    }
    let mut j: usize = 0;
    while j < sa1_enc.len()
        invariant
            j <= sa1_enc@.len(),
            out@ == sksa@.subrange(0, SKSA_MIN_BYTES as int) + sa1_enc@.subrange(0, j as int),
        decreases sa1_enc@.len() - j,
    {
        out.push(sa1_enc[j]);
        j = j + 1;
        assert(out@ =~= sksa@.subrange(0, SKSA_MIN_BYTES as int) + sa1_enc@.subrange(0, j as int));
    }
    assert(sa1_enc@.subrange(0, sa1_enc@.len() as int) =~= sa1_enc@);
    out
}

/// Repackages `sksa` with `payload` as its new second-stage image.
///
/// `cmd` is the command header decoded from the container, `virage2` the
/// trust anchor, and `sk_key` / `sk_iv` the key pair derived from the boot
/// ROM. The checks run in this order, and the first that fails decides the
/// error: the container's length, the payload's length, the kernel's digest,
/// then the cipher on the second-stage image (whose size must be whole AES
/// blocks). No cipher runs before both length checks have passed.
pub fn build_sksa(
    sksa: &[u8],
    payload: Vec<u8>,
    cmd: &CmdHead,
    virage2: &Virage2,
    sk_key: &[u8; 16],
    sk_iv: &[u8; 16],
) -> (r: Result<Vec<u8>, BBBSError>)
    requires
        cmd.size >= ROM_HEADER_SIZE,
    ensures
        sksa@.len() < SKSA_MIN_BYTES ==> r == Err::<Vec<u8>, BBBSError>(
            BBBSError::SKSATooShort(sksa@.len() as usize),
        ),
        sksa@.len() >= SKSA_MIN_BYTES && payload@.len() > payload_capacity(cmd.size) ==> r
            == Err::<Vec<u8>, BBBSError>(
            BBBSError::PayloadTooLong(payload@.len() as usize, (cmd.size - ROM_HEADER_SIZE) as u32),
        ),
        lengths_ok(sksa@, payload@, *cmd) && !kernel_verified(sksa@, *virage2, sk_key@, sk_iv@)
            ==> (r matches Err(BBBSError::InvalidSKHash(c, e)) && c@ == hex_of(
            sha1_of(sk_plain(sksa@, sk_key@, sk_iv@)),
        ) && e@ == hex_of(virage2.sk_hash@)),
        lengths_ok(sksa@, payload@, *cmd) && kernel_verified(sksa@, *virage2, sk_key@, sk_iv@)
            && cmd.size % (AES_BLOCK_SIZE as u32) != 0 ==> (r matches Err(
            BBBSError::CipherFailure(_),
        )),
        lengths_ok(sksa@, payload@, *cmd) && kernel_verified(sksa@, *virage2, sk_key@, sk_iv@)
            && cmd.size % (AES_BLOCK_SIZE as u32) == 0 ==> (r matches Ok(out) && out@ == repacked(
            sksa@,
            payload@,
            *cmd,
            *virage2,
        )),
        r matches Ok(out) ==> out@.len() == SKSA_MIN_BYTES + cmd.size && out@.subrange(
            0,
            SKSA_MIN_BYTES as int,
        ) == sksa@.subrange(0, SKSA_MIN_BYTES as int),
{
    check_sksa_len(sksa)?;
    check_payload_len(payload.len(), cmd.size)?;

    let sk = vstd::slice::slice_subrange(sksa, 0, SK_SIZE);
    let sk_dec = match aes_dec_cbc(sk, sk_key, sk_iv) {
        Ok(v) => v,
        Err(msg) => return Err(BBBSError::CipherFailure(msg)),
    };
    let sk_hash = sha1_digest(sk_dec.as_slice());
    check_sk_hash(&sk_hash, &virage2.sk_hash)?;

    let sa1_key = match aes_dec_cbc(&cmd.key, &virage2.boot_app_key, &cmd.common_cmd_iv) {
        Ok(v) => v,
        Err(msg) => return Err(BBBSError::CipherFailure(msg)),
    };

    let sa1 = build_sa1(payload, cmd.size);
    let sa1_enc = match aes_enc_cbc(sa1.as_slice(), sa1_key.as_slice(), &cmd.iv) {
        Ok(v) => v,
        Err(msg) => return Err(BBBSError::CipherFailure(msg)),
    };
    let out = assemble(sksa, sa1_enc.as_slice());
    proof {
        let pre = sksa@.subrange(0, SKSA_MIN_BYTES as int);
        assert(out@.subrange(0, SKSA_MIN_BYTES as int) =~= pre);
    }
    Ok(out)
}

} // verus!
