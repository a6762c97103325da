//! Layout of the container and of the second-stage image.
use vstd::prelude::*;

verus! {

/// Size of the first-stage kernel ciphertext at the start of a container.
pub const SK_SIZE: usize = 65536;

/// Size of the info block that follows the kernel (command header and padding).
pub const SA1_INFO_BLOCK_SIZE: usize = 16384;

/// Bytes of the container that are carried through unchanged.
pub const SKSA_MIN_BYTES: usize = 81920;

/// Size of the header that precedes the payload in a second-stage image.
pub const ROM_HEADER_SIZE: usize = 4096;

/// Offset of the load-address field inside the second-stage header.
pub const ENTRYPOINT_OFFSET: usize = 8;

/// Load address of the unzip buffer, written into the second-stage header.
pub const UNZIP_BUF_OFFSET: u32 = 0x80300000;

/// The four bytes of `x`, most significant first.
pub open spec fn be_bytes(x: u32) -> Seq<u8> {
    seq![(x >> 24u32) as u8, (x >> 16u32) as u8, (x >> 8u32) as u8, x as u8]
}

/// The second-stage header: zeros, except the load address at the entrypoint offset.
pub open spec fn sa1_header() -> Seq<u8> {
    Seq::new(
        ROM_HEADER_SIZE as nat,
        |i: int|
            if ENTRYPOINT_OFFSET <= i < ENTRYPOINT_OFFSET + 4 {
                be_bytes(UNZIP_BUF_OFFSET)[i - ENTRYPOINT_OFFSET]
            } else {
                0u8
            },
    )
}

/// The plaintext second-stage image: header, payload, then zeros up to `size` bytes.
pub open spec fn sa1_image(payload: Seq<u8>, size: nat) -> Seq<u8> {
    sa1_header() + payload + Seq::new(
        (size - ROM_HEADER_SIZE - payload.len()) as nat,
        |i: int| 0u8,
    )
}

/// Whatever the payload and the slot size, the plaintext image holds the
/// load address at the entrypoint offset and has exactly the slot's size.
pub proof fn lemma_sa1_load_address(payload: Seq<u8>, size: nat)
    requires
        ROM_HEADER_SIZE + payload.len() <= size,
    ensures
        sa1_image(payload, size).subrange(ENTRYPOINT_OFFSET as int, ENTRYPOINT_OFFSET + 4)
            == be_bytes(UNZIP_BUF_OFFSET),
        sa1_image(payload, size).len() == size,
{
    assert(sa1_image(payload, size).subrange(ENTRYPOINT_OFFSET as int, ENTRYPOINT_OFFSET + 4)
        =~= be_bytes(UNZIP_BUF_OFFSET));
}

/// Builds the second-stage header followed by the payload.
pub fn make_sa1(payload: Vec<u8>) -> (r: Vec<u8>)
    ensures
        r@ == sa1_header() + payload@,
        r@.subrange(ENTRYPOINT_OFFSET as int, ENTRYPOINT_OFFSET + 4) == be_bytes(UNZIP_BUF_OFFSET),
{
    let addr: [u8; 4] = [
        (UNZIP_BUF_OFFSET >> 24u32) as u8,
        (UNZIP_BUF_OFFSET >> 16u32) as u8,
        (UNZIP_BUF_OFFSET >> 8u32) as u8,
        UNZIP_BUF_OFFSET as u8,
    ];
    assert(addr@ == be_bytes(UNZIP_BUF_OFFSET));
    let mut rv: Vec<u8> = Vec::new();
    let mut i: usize = 0;
    while i < ROM_HEADER_SIZE
        invariant
            i <= ROM_HEADER_SIZE,
            addr@ == be_bytes(UNZIP_BUF_OFFSET),
            rv@ == sa1_header().subrange(0, i as int),
        decreases ROM_HEADER_SIZE - i,
    {
        let b: u8 = if ENTRYPOINT_OFFSET <= i && i < ENTRYPOINT_OFFSET + 4 {
            addr[i - ENTRYPOINT_OFFSET]
        } else {
            0u8
        };
        rv.push(b);
        i = i + 1;
        assert(rv@ =~= sa1_header().subrange(0, i as int));
    }
    assert(rv@ =~= sa1_header());
    let mut j: usize = 0;
    while j < payload.len()
        invariant
            j <= payload@.len(),
            rv@ == sa1_header() + payload@.subrange(0, j as int),
        decreases payload@.len() - j,
    {
        rv.push(payload[j]);
        j = j + 1;
        assert(rv@ =~= sa1_header() + payload@.subrange(0, j as int));
    }
    assert(payload@.subrange(0, payload@.len() as int) =~= payload@);
    assert(rv@.subrange(ENTRYPOINT_OFFSET as int, ENTRYPOINT_OFFSET + 4) =~= be_bytes(
        UNZIP_BUF_OFFSET,
    ));
    rv
}

} // verus!
