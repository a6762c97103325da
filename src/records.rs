//! The decoded records that drive a repackaging run.
use vstd::prelude::*;

verus! {

/// The command header of the second-stage slot, as stored after the kernel.
pub struct CmdHead {
    /// Session key, encrypted under the boot-application key.
    pub key: [u8; 16],
    /// Initialization vector under which the session key was encrypted.
    pub common_cmd_iv: [u8; 16],
    /// Initialization vector of the second-stage image.
    pub iv: [u8; 16],
    /// Bytes reserved for the encrypted second-stage image.
    pub size: u32,
}

/// The trust anchor: what the kernel must hash to, and the key that
/// unlocks the session key.
pub struct Virage2 {
    /// Expected SHA-1 digest of the decrypted kernel.
    pub sk_hash: [u8; 20],
    /// Key under which the command header's session key is encrypted.
    pub boot_app_key: [u8; 16],
}

} // verus!
