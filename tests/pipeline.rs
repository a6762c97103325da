use bbbs::hex::to_hex;
use bbbs::image::{make_sa1, ROM_HEADER_SIZE, SKSA_MIN_BYTES, SK_SIZE};
use bbbs::records::{CmdHead, Virage2};
use bbbs::{
    assemble, build_sa1, build_sksa, check_payload_len, check_sk_hash, check_sksa_len, BBBSError,
};
use sha1::Digest;

const SK_KEY: [u8; 16] = [0x11; 16];
const SK_IV: [u8; 16] = [0x22; 16];
const BOOT_APP_KEY: [u8; 16] = [0x33; 16];
const COMMON_IV: [u8; 16] = [0x44; 16];
const SA1_IV: [u8; 16] = [0x55; 16];
const ENC_SESSION_KEY: [u8; 16] = [0x66; 16];

fn container() -> Vec<u8> {
    let mut sksa = vec![0u8; SKSA_MIN_BYTES];
    for (i, b) in sksa[SK_SIZE..].iter_mut().enumerate() {
        *b = (i % 251) as u8;
    }
    sksa
}

fn kernel_digest(sksa: &[u8]) -> [u8; 20] {
    let plain = soft_aes::aes::aes_dec_cbc(&sksa[..SK_SIZE], &SK_KEY, &SK_IV, None).unwrap();
    sha1::Sha1::digest(&plain).into()
}

fn header(size: u32) -> CmdHead {
    CmdHead { key: ENC_SESSION_KEY, common_cmd_iv: COMMON_IV, iv: SA1_IV, size }
}

fn anchor(sksa: &[u8]) -> Virage2 {
    Virage2 { sk_hash: kernel_digest(sksa), boot_app_key: BOOT_APP_KEY }
}

fn session_key() -> Vec<u8> {
    soft_aes::aes::aes_dec_cbc(&ENC_SESSION_KEY, &BOOT_APP_KEY, &COMMON_IV, None).unwrap()
}

#[test]
fn make_sa1_writes_load_address() {
    let rv = make_sa1(vec![0xaa; 3]);
    assert_eq!(rv.len(), ROM_HEADER_SIZE + 3);
    assert_eq!(&rv[8..12], &[0x80, 0x30, 0x00, 0x00]);
    assert!(rv[..8].iter().all(|&b| b == 0));
    assert!(rv[12..ROM_HEADER_SIZE].iter().all(|&b| b == 0));
    assert_eq!(&rv[ROM_HEADER_SIZE..], &[0xaa, 0xaa, 0xaa]);
}

#[test]
fn make_sa1_load_address_ignores_payload() {
    let rv = make_sa1(vec![0xff; 5000]);
    assert_eq!(&rv[8..12], &[0x80, 0x30, 0x00, 0x00]);
    let empty = make_sa1(vec![]);
    assert_eq!(empty.len(), ROM_HEADER_SIZE);
    assert_eq!(&empty[8..12], &[0x80, 0x30, 0x00, 0x00]);
}

#[test]
fn build_sa1_pads_with_zeros() {
    let rv = build_sa1(vec![1, 2, 3], 8192);
    assert_eq!(rv.len(), 8192);
    assert_eq!(&rv[8..12], &[0x80, 0x30, 0x00, 0x00]);
    assert_eq!(&rv[ROM_HEADER_SIZE..ROM_HEADER_SIZE + 3], &[1, 2, 3]);
    assert!(rv[ROM_HEADER_SIZE + 3..].iter().all(|&b| b == 0));
}

#[test]
fn short_container_is_rejected() {
    assert!(matches!(check_sksa_len(&[0u8; 100]), Err(BBBSError::SKSATooShort(100))));
    assert!(matches!(
        check_sksa_len(&vec![0u8; SKSA_MIN_BYTES - 1]),
        Err(BBBSError::SKSATooShort(n)) if n == SKSA_MIN_BYTES - 1
    ));
    assert!(check_sksa_len(&vec![0u8; SKSA_MIN_BYTES]).is_ok());
}

#[test]
fn short_container_fails_pipeline_first() {
    let r = build_sksa(&[0u8; 10], vec![0; 100_000], &header(20480), &anchor(&container()), &SK_KEY, &SK_IV);
    assert!(matches!(r, Err(BBBSError::SKSATooShort(10))));
}

#[test]
fn payload_capacity_boundary() {
    assert!(check_payload_len(16384, 20480).is_ok());
    assert!(matches!(check_payload_len(16385, 20480), Err(BBBSError::PayloadTooLong(16385, 16384))));
    assert!(check_payload_len(0, 4096).is_ok());
    assert!(matches!(check_payload_len(1, 4096), Err(BBBSError::PayloadTooLong(1, 0))));
}

#[test]
fn payload_too_large_fails_before_kernel_check() {
    let sksa = container();
    let mut v = anchor(&sksa);
    v.sk_hash[0] ^= 1;
    let r = build_sksa(&sksa, vec![7; 16385], &header(20480), &v, &SK_KEY, &SK_IV);
    assert!(matches!(r, Err(BBBSError::PayloadTooLong(16385, 16384))));
}

#[test]
fn full_payload_fits() {
    let sksa = container();
    let r = build_sksa(&sksa, vec![7; 16384], &header(20480), &anchor(&sksa), &SK_KEY, &SK_IV);
    assert_eq!(r.unwrap().len(), SKSA_MIN_BYTES + 20480);
}

#[test]
fn repack_scenario() {
    let sksa = container();
    let payload: Vec<u8> = (0..100u8).collect();
    let out = build_sksa(&sksa, payload.clone(), &header(20480), &anchor(&sksa), &SK_KEY, &SK_IV)
        .unwrap();
    assert_eq!(out.len(), 100 * 1024);
    assert_eq!(&out[..80 * 1024], &sksa[..80 * 1024]);

    let plain =
        soft_aes::aes::aes_dec_cbc(&out[SKSA_MIN_BYTES..], &session_key(), &SA1_IV, None).unwrap();
    assert_eq!(plain, build_sa1(payload.clone(), 20480));
    assert_ne!(&out[SKSA_MIN_BYTES..], &plain[..]);
    assert_eq!(&plain[ROM_HEADER_SIZE..ROM_HEADER_SIZE + 100], &payload[..]);
}

#[test]
fn altered_digest_is_rejected() {
    let sksa = container();
    let mut v = anchor(&sksa);
    let good = v.sk_hash;
    v.sk_hash[19] ^= 0xff;
    let r = build_sksa(&sksa, vec![1; 100], &header(20480), &v, &SK_KEY, &SK_IV);
    match r {
        Err(BBBSError::InvalidSKHash(calc, expected)) => {
            assert_eq!(calc, to_hex(&good));
            assert_eq!(expected, to_hex(&v.sk_hash));
            assert_eq!(calc.len(), 40);
        }
        other => panic!("unexpected result {:?}", other),
    }
}

#[test]
fn flipped_kernel_bit_is_rejected() {
    let sksa = container();
    let v = anchor(&sksa);
    let mut bad = sksa.clone();
    bad[1234] ^= 0x08;
    let r = build_sksa(&bad, vec![1; 100], &header(20480), &v, &SK_KEY, &SK_IV);
    assert!(matches!(r, Err(BBBSError::InvalidSKHash(_, _))));
}

#[test]
fn wrong_boot_rom_key_is_rejected() {
    let sksa = container();
    let v = anchor(&sksa);
    let r = build_sksa(&sksa, vec![1; 100], &header(20480), &v, &[0x12; 16], &SK_IV);
    assert!(matches!(r, Err(BBBSError::InvalidSKHash(_, _))));
}

#[test]
fn unaligned_image_size_is_a_cipher_failure() {
    let sksa = container();
    let r = build_sksa(&sksa, vec![1; 100], &header(20488), &anchor(&sksa), &SK_KEY, &SK_IV);
    assert!(matches!(r, Err(BBBSError::CipherFailure(_))));
}

#[test]
fn info_block_is_carried_through() {
    let mut sksa = container();
    sksa.extend_from_slice(&[0xee; 50]);
    let out = build_sksa(&sksa, vec![], &header(4096), &anchor(&sksa), &SK_KEY, &SK_IV).unwrap();
    assert_eq!(out.len(), SKSA_MIN_BYTES + 4096);
    assert_eq!(&out[..SKSA_MIN_BYTES], &sksa[..SKSA_MIN_BYTES]);
}

#[test]
fn digest_comparison() {
    let a = [3u8; 20];
    let mut b = a;
    assert!(check_sk_hash(&a, &b).is_ok());
    b[0] = 0x4f;
    match check_sk_hash(&a, &b) {
        Err(BBBSError::InvalidSKHash(c, e)) => {
            assert_eq!(c, "0303030303030303030303030303030303030303");
            assert_eq!(e, "4f03030303030303030303030303030303030303");
        }
        other => panic!("unexpected result {:?}", other),
    }
}

#[test]
fn from_hashes_renders_hex() {
    let e = BBBSError::from_hashes(&[0xab; 20], &[0x01; 20]);
    assert!(matches!(e, BBBSError::InvalidSKHash(ref c, ref x)
        if c == &"ab".repeat(20) && x == &"01".repeat(20)));
}

#[test]
fn hex_rendering() {
    assert_eq!(to_hex(&[]), "");
    assert_eq!(to_hex(&[0x00, 0x0f, 0xa5, 0xff]), "000fa5ff");
}

#[test]
fn assemble_keeps_prefix() {
    let sksa = container();
    let out = assemble(&sksa, &[9, 8, 7]);
    assert_eq!(out.len(), SKSA_MIN_BYTES + 3);
    assert_eq!(&out[..SKSA_MIN_BYTES], &sksa[..]);
    assert_eq!(&out[SKSA_MIN_BYTES..], &[9, 8, 7]);
}
