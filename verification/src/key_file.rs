//! The file in which the local key storage keeps the master key:
//! `nonce(12) + AES-256-GCM(master key)`, under a key that HKDF-SHA256
//! derives from the machine's fingerprint and a salt kept beside it. Files
//! written before the salt was kept use a fixed salt, tried second.
use crate::crypto::{
    aes_gcm_decrypt, aes_gcm_encrypt, aes_gcm_opened, aes_gcm_sealed, aes_max_plaintext,
    append_bytes, byte_range, str_bytes, utf8_to_string,
};
use crate::text::{push_str, string_from_chars, to_chars};
use rand::RngCore;
use vstd::prelude::*;
use vstd::utf8::*;

verus! {

/// HKDF `info` of the file key.
pub open spec fn hkdf_info() -> Seq<char> {
    "onetcli-master-key-v1"@
}

/// The fixed salt of files written before the salt was kept.
pub open spec fn legacy_hkdf_salt() -> Seq<char> {
    "onetcli-key-derivation-v1"@
}

/// Length of the kept salt.
pub open spec fn salt_len() -> nat {
    16
}

/// The 32-byte output of HKDF-SHA256 with `salt`, input key material `ikm`
/// and `info`.
pub uninterp spec fn hkdf_sha256_okm(salt: Seq<u8>, ikm: Seq<u8>, info: Seq<u8>) -> Seq<u8>;

/// HKDF-SHA256 by hkdf's `Hkdf::<Sha256>::new(Some(salt), ikm).expand(info, ..)`
/// into 32 bytes (an output length it always accepts).
#[verifier::external_body]
fn hkdf_sha256(salt: &[u8], ikm: &[u8], info: &[u8]) -> (r: Vec<u8>)
    ensures
        r@ == hkdf_sha256_okm(salt@, ikm@, info@),
        r@.len() == 32,
{
    let hk = hkdf::Hkdf::<sha2::Sha256>::new(Some(salt), ikm);
    let mut key = [0u8; 32];
    let _ = hk.expand(info, &mut key);
    key.to_vec()
}

/// `n` bytes from rand's `OsRng` (any value may come).
#[verifier::external_body]
fn os_random_bytes(n: usize) -> (r: Vec<u8>)
    ensures
        r@.len() == n,
{
    let mut out = vec![0u8; n];
    rand::rngs::OsRng.fill_bytes(&mut out);
    out
}

/// The machine fingerprint `"{arch}|{machine_id}|{hostname}|{username}"`.
pub open spec fn fingerprint_text(
    arch: Seq<char>,
    machine_id: Seq<char>,
    hostname: Seq<char>,
    username: Seq<char>,
) -> Seq<char> {
    arch + seq!['|'] + machine_id + seq!['|'] + hostname + seq!['|'] + username
}

/// Joins the parts of the machine fingerprint.
pub fn machine_fingerprint(arch: &str, machine_id: &str, hostname: &str, username: &str) -> (r:
    String)
    ensures
        r@ == fingerprint_text(arch@, machine_id@, hostname@, username@),
{
    let mut v = to_chars(arch);
    v.push('|');
    push_str(&mut v, &to_chars(machine_id));
    v.push('|');
    push_str(&mut v, &to_chars(hostname));
    v.push('|');
    push_str(&mut v, &to_chars(username));
    proof {
        assert(v@ =~= fingerprint_text(arch@, machine_id@, hostname@, username@));
    }
    string_from_chars(&v)
}

/// The file key for a fingerprint and salt.
pub open spec fn file_key(fingerprint: Seq<char>, salt: Seq<u8>) -> Seq<u8> {
    hkdf_sha256_okm(salt, encode_utf8(fingerprint), encode_utf8(hkdf_info()))
}

/// Derives the file key from the machine fingerprint and `salt`.
pub fn derive_encryption_key_with_salt(fingerprint: &str, salt: &[u8]) -> (r: Vec<u8>)
    ensures
        r@ == file_key(fingerprint@, salt@),
        r@.len() == 32,
{
    let ikm = str_bytes(fingerprint);
    let info = str_bytes("onetcli-master-key-v1");
    hkdf_sha256(salt, ikm.as_slice(), info.as_slice())
}

/// Derives the file key of files written with the fixed salt.
pub fn derive_legacy_encryption_key(fingerprint: &str) -> (r: Vec<u8>)
    ensures
        r@ == file_key(fingerprint@, encode_utf8(legacy_hkdf_salt())),
        r@.len() == 32,
{
    let salt = str_bytes("onetcli-key-derivation-v1");
    derive_encryption_key_with_salt(fingerprint, salt.as_slice())
}

/// The salt kept in the salt file: its first 16 bytes, `None` where it is
/// shorter.
pub fn persisted_salt(data: &[u8]) -> (r: Option<Vec<u8>>)
    ensures
        data@.len() < salt_len() ==> r is None,
        data@.len() >= salt_len() ==> (r matches Some(s) && s@ == data@.subrange(0, 16)),
{
    if data.len() < 16 {
        return None;
    }
    let v = vstd::slice::slice_to_vec(data);
    Some(byte_range(&v, 0, 16))
}

/// A fresh salt from the operating system's generator.
pub fn new_salt() -> (r: Vec<u8>)
    ensures
        r@.len() == salt_len(),
{
    os_random_bytes(16)
}

/// Decrypting `ct` under `key` and `nonce` into text: `None` where it does
/// not open or is not UTF-8.
pub open spec fn try_open(key: Seq<u8>, nonce: Seq<u8>, ct: Seq<u8>) -> Option<Seq<char>> {
    match aes_gcm_opened(key, nonce, ct) {
        Some(p) => if valid_utf8(p) {
            Some(decode_utf8(p))
        } else {
            None
        },
        None => None,
    }
}

/// The master key read from file contents `data`: `None` where shorter
/// than a nonce; else the text under `key`, or failing that under
/// `legacy_key`.
pub open spec fn open_outcome(data: Seq<u8>, key: Seq<u8>, legacy_key: Seq<u8>) -> Option<Seq<char>> {
    if data.len() < 12 {
        None
    } else {
        match try_open(key, data.subrange(0, 12), data.skip(12)) {
            Some(s) => Some(s),
            None => try_open(legacy_key, data.subrange(0, 12), data.skip(12)),
        }
    }
}

/// Encrypts `master_key` under `key` with a fresh nonce into file contents;
/// `None` where AES-GCM refuses it (over 2^36 bytes). What it writes reads
/// back as `master_key` under the same key, whatever the legacy key.
pub fn seal_master_key(key: &Vec<u8>, master_key: &str) -> (r: Option<Vec<u8>>)
    requires
        key@.len() == 32,
    ensures
        r is Some <==> encode_utf8(master_key@).len() <= aes_max_plaintext(),
        r matches Some(d) ==> exists|nonce: Seq<u8>|
            #![trigger aes_gcm_sealed(key@, nonce, encode_utf8(master_key@))]
            nonce.len() == 12 && d@ == nonce + aes_gcm_sealed(key@, nonce, encode_utf8(master_key@)),
        r matches Some(d) ==> forall|legacy: Seq<u8>|
            #[trigger] open_outcome(d@, key@, legacy) == Some(master_key@),
{
    let nonce = os_random_bytes(12);
    let bytes = str_bytes(master_key);
    match aes_gcm_encrypt(key.as_slice(), nonce.as_slice(), bytes.as_slice()) {
        Some(ct) => {
            let mut data = Vec::new();
            append_bytes(&mut data, nonce.as_slice());
            append_bytes(&mut data, ct.as_slice());
            proof {
                broadcast use encode_utf8_decode_utf8, encode_utf8_valid_utf8;

                assert(data@ =~= nonce@ + ct@);
                assert(data@.subrange(0, 12) =~= nonce@);
                assert(data@.skip(12) =~= ct@);
            }
            Some(data)
        },
        None => None,
    }
}

/// Decrypts text under `key` and `nonce`.
fn try_decrypt(key: &Vec<u8>, nonce: &Vec<u8>, ct: &Vec<u8>) -> (r: Option<String>)
    requires
        key@.len() == 32,
        nonce@.len() == 12,
    ensures
        match r {
            Some(s) => try_open(key@, nonce@, ct@) == Some(s@),
            None => try_open(key@, nonce@, ct@) is None,
        },
{
    match aes_gcm_decrypt(key.as_slice(), nonce.as_slice(), ct.as_slice()) {
        Some(p) => utf8_to_string(p),
        None => None,
    }
}

/// Reads the master key from file contents `data`; see `open_outcome`.
pub fn open_master_key(data: &[u8], key: &Vec<u8>, legacy_key: &Vec<u8>) -> (r: Option<String>)
    requires
        key@.len() == 32,
        legacy_key@.len() == 32,
    ensures
        match r {
            Some(s) => open_outcome(data@, key@, legacy_key@) == Some(s@),
            None => open_outcome(data@, key@, legacy_key@) is None,
        },
{
    if data.len() < 12 {
        return None;
    }
    let v = vstd::slice::slice_to_vec(data);
    let nonce = byte_range(&v, 0, 12);
    let ct = byte_range(&v, 12, v.len());
    match try_decrypt(key, &nonce, &ct) {
        Some(s) => Some(s),
        None => try_decrypt(legacy_key, &nonce, &ct),
    }
}

} // verus!
