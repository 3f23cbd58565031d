//! Encryption of stored secrets with AES-256-GCM under a key derived from
//! the user's master key, and the verification data that tells whether a
//! master key is the right one.
//!
//! Formats of an encrypted secret (`base64` is standard Base64):
//! - `ENC:V3:base64(salt(16) + nonce(12) + ciphertext)`, key from Argon2id
//!   over the master key and a fixed application salt (written today);
//! - `ENC:V2:base64(salt(16) + nonce(12) + ciphertext)`, key from SHA-256;
//! - `ENC:base64(nonce(12) + ciphertext)`, key from SHA-256.
//!
//! Verification data is `base64("V3:" + salt(16) + nonce(12) + ciphertext)`
//! (or `V2:`), the magic text encrypted under Argon2id of the master key and
//! the salt; or `base64(nonce(12) + ciphertext)` under the SHA-256 key.
use crate::text::{has_prefix, slice_chars, starts_with_str, string_from_chars, to_chars};
use aes_gcm::aead::{Aead, KeyInit};
use base64::Engine;
use rand::RngCore;
use sha2::Digest;
use vstd::prelude::*;
use vstd::slice::slice_to_vec;
use vstd::utf8::*;

verus! {

// ---------------------------------------------------------------------------
// Errors
// ---------------------------------------------------------------------------
/// Why an operation on encrypted data or on the master key failed.
#[derive(Debug, Clone, Copy, PartialEq, Eq, Structural)]
pub enum CryptoError {
    /// The old master key is wrong.
    InvalidOldPassword,
    /// The new master key is empty.
    EmptyNewPassword,
    /// The new master key and its confirmation differ.
    PasswordMismatch,
    /// No master key was ever set.
    NoPasswordSet,
    /// The verification data could not be saved.
    SaveVerificationFailed,
    /// Decryption failed (wrong key or damaged data).
    DecryptionFailed,
    /// Base64 or UTF-8 decoding failed.
    EncodingFailed,
    /// The data is too short for its format.
    InvalidDataFormat,
}

impl CryptoError {
    /// The message shown for this error.
    pub fn message(&self) -> (r: String)
        ensures
            r@ == match self {
                CryptoError::InvalidOldPassword => "旧密码错误"@,
                CryptoError::EmptyNewPassword => "新密码不能为空"@,
                CryptoError::PasswordMismatch => "两次输入的新密码不一致"@,
                CryptoError::NoPasswordSet => "未设置过主密码"@,
                CryptoError::SaveVerificationFailed => "保存验证数据失败"@,
                CryptoError::DecryptionFailed => "解密失败"@,
                CryptoError::EncodingFailed => "编码失败"@,
                CryptoError::InvalidDataFormat => "数据格式错误"@,
            },
    {
        match self {
            CryptoError::InvalidOldPassword => String::from_str("旧密码错误"),
            CryptoError::EmptyNewPassword => String::from_str("新密码不能为空"),
            CryptoError::PasswordMismatch => String::from_str("两次输入的新密码不一致"),
            CryptoError::NoPasswordSet => String::from_str("未设置过主密码"),
            CryptoError::SaveVerificationFailed => String::from_str("保存验证数据失败"),
            CryptoError::DecryptionFailed => String::from_str("解密失败"),
            CryptoError::EncodingFailed => String::from_str("编码失败"),
            CryptoError::InvalidDataFormat => String::from_str("数据格式错误"),
        }
    }
}

// ---------------------------------------------------------------------------
// Formats
// ---------------------------------------------------------------------------
/// Prefix of the oldest format.
pub open spec fn prefix_v1() -> Seq<char> {
    "ENC:"@
}

/// Prefix of the SHA-256 format with a salt.
pub open spec fn prefix_v2() -> Seq<char> {
    "ENC:V2:"@
}

/// Prefix of the Argon2id format.
pub open spec fn prefix_v3() -> Seq<char> {
    "ENC:V3:"@
}

/// Whether `s` carries one of the prefixes of encrypted data.
pub open spec fn is_encrypted_spec(s: Seq<char>) -> bool {
    has_prefix(s, prefix_v1()) || has_prefix(s, prefix_v2()) || has_prefix(s, prefix_v3())
}

/// Whether `password` is already encrypted (carries an `ENC:` prefix).
pub fn is_encrypted(password: &str) -> (r: bool)
    ensures
        r == is_encrypted_spec(password@),
{
    let v = to_chars(password);
    starts_with_str(&v, "ENC:") || starts_with_str(&v, "ENC:V2:") || starts_with_str(
        &v,
        "ENC:V3:",
    )
}

/// Largest plaintext AES-GCM accepts, in bytes.
pub open spec fn aes_max_plaintext() -> int {
    0x10_0000_0000
}

// ---------------------------------------------------------------------------
// Byte helpers
// ---------------------------------------------------------------------------
/// Views an optional byte vector as an optional sequence.
pub open spec fn opt_bytes(o: Option<Vec<u8>>) -> Option<Seq<u8>> {
    match o {
        Some(v) => Some(v@),
        None => None,
    }
}

/// Whether `a` begins with `p`.
pub open spec fn byte_prefix(a: Seq<u8>, p: Seq<u8>) -> bool {
    p.len() <= a.len() && a.subrange(0, p.len() as int) == p
}

/// `dst` followed by `src`.
pub(crate) fn append_bytes(dst: &mut Vec<u8>, src: &[u8])
    ensures
        final(dst)@ == old(dst)@ + src@,
{
    let mut i: usize = 0;
    while i < src.len()
        invariant
            i <= src@.len(),
            dst@ == old(dst)@ + src@.subrange(0, i as int),
        decreases src@.len() - i,
    {
        dst.push(src[i]);
        i = i + 1;
        proof {
            assert(src@.subrange(0, i as int) =~= src@.subrange(0, i - 1) + seq![src@[i - 1]]);
        }
    }
    proof {
        assert(src@.subrange(0, src@.len() as int) =~= src@);
    }
}

/// Whether `a` begins with `p`.
fn bytes_start_with(a: &[u8], p: &[u8]) -> (r: bool)
    ensures
        r == byte_prefix(a@, p@),
{
    if p.len() > a.len() {
        return false;
    }
    let mut i: usize = 0;
    while i < p.len()
        invariant
            p@.len() <= a@.len(),
            i <= p@.len(),
            forall|k: int| 0 <= k < i ==> a@[k] == p@[k],
        decreases p@.len() - i,
    {
        if a[i] != p[i] {
            proof {
                assert(a@.subrange(0, p@.len() as int)[i as int] != p@[i as int]);
            }
            return false;
        }
        i = i + 1;
    }
    proof {
        assert(a@.subrange(0, p@.len() as int) =~= p@);
    }
    true
}

/// The bytes `v[lo..hi]`.
pub(crate) fn byte_range(v: &Vec<u8>, lo: usize, hi: usize) -> (r: Vec<u8>)
    requires
        lo <= hi <= v@.len(),
    ensures
        r@ == v@.subrange(lo as int, hi as int),
{
    let s = v.as_slice();
    slice_to_vec(&s[lo..hi])
}

/// `n` zero bytes.
fn zero_bytes(n: usize) -> (r: Vec<u8>)
    ensures
        r@ == Seq::new(n as nat, |i: int| 0u8),
{
    let mut r: Vec<u8> = Vec::new();
    let mut i: usize = 0;
    while i < n
        invariant
            i <= n,
            r@ == Seq::new(i as nat, |k: int| 0u8),
        decreases n - i,
    {
        r.push(0u8);
        i = i + 1;
        proof {
            assert(r@ =~= Seq::new(i as nat, |k: int| 0u8));
        }
    }
    r
}

// ---------------------------------------------------------------------------
// Outside primitives
// ---------------------------------------------------------------------------
/// SHA-256 digest of a byte string.
pub uninterp spec fn sha256_of(data: Seq<u8>) -> Seq<u8>;

/// Digest of `data` by sha2's `Sha256::digest`: 32 bytes.
#[verifier::external_body]
pub(crate) fn sha256_digest(data: &[u8]) -> (r: Vec<u8>)
    ensures
        r@ == sha256_of(data@),
        r@.len() == 32,
{
    sha2::Sha256::digest(data).to_vec()
}

/// The 32-byte output of `Argon2::default().hash_password_into(pwd, salt, ..)`,
/// `None` where it returns an error.
pub uninterp spec fn argon2id_output(pwd: Seq<u8>, salt: Seq<u8>) -> Option<Seq<u8>>;

/// Argon2id (the crate's default parameters) of `pwd` with `salt` into 32
/// bytes. The source fails only on a password longer than `u32::MAX`
/// bytes or a salt shorter than 8 or longer than `u32::MAX` bytes.
#[verifier::external_body]
fn argon2id_hash(pwd: &[u8], salt: &[u8]) -> (r: Option<Vec<u8>>)
    ensures
        opt_bytes(r) == argon2id_output(pwd@, salt@),
        r matches Some(k) ==> k@.len() == 32,
        r is Some <==> (pwd@.len() <= 0xFFFF_FFFF && 8 <= salt@.len() <= 0xFFFF_FFFF),
{
    let mut out = [0u8; 32];
    match argon2::Argon2::default().hash_password_into(pwd, salt, &mut out) {
        Ok(()) => Some(out.to_vec()),
        Err(_) => None,
    }
}

/// AES-256-GCM ciphertext (with its 16-byte tag) of `pt` under `key` and `nonce`.
pub uninterp spec fn aes_gcm_sealed(key: Seq<u8>, nonce: Seq<u8>, pt: Seq<u8>) -> Seq<u8>;

/// AES-256-GCM decryption of `ct` under `key` and `nonce`: `None` where the
/// tag does not check.
pub uninterp spec fn aes_gcm_opened(key: Seq<u8>, nonce: Seq<u8>, ct: Seq<u8>) -> Option<Seq<u8>>;

/// Encrypts with aes-gcm's `Aes256Gcm::encrypt`, which fails only on a
/// plaintext longer than 2^36 bytes; what it seals opens again under the
/// same key and nonce.
#[verifier::external_body]
pub(crate) fn aes_gcm_encrypt(key: &[u8], nonce: &[u8], pt: &[u8]) -> (r: Option<Vec<u8>>)
    requires
        key@.len() == 32,
        nonce@.len() == 12,
    ensures
        r is Some <==> pt@.len() <= aes_max_plaintext(),
        r matches Some(c) ==> c@ == aes_gcm_sealed(key@, nonce@, pt@),
        r matches Some(c) ==> c@.len() == pt@.len() + 16,
        r matches Some(c) ==> aes_gcm_opened(key@, nonce@, c@) == Some(pt@),
{
    let cipher = aes_gcm::Aes256Gcm::new(aes_gcm::Key::<aes_gcm::Aes256Gcm>::from_slice(key));
    cipher.encrypt(aes_gcm::Nonce::from_slice(nonce), pt).ok()
}

/// Decrypts with aes-gcm's `Aes256Gcm::decrypt`.
#[verifier::external_body]
pub(crate) fn aes_gcm_decrypt(key: &[u8], nonce: &[u8], ct: &[u8]) -> (r: Option<Vec<u8>>)
    requires
        key@.len() == 32,
        nonce@.len() == 12,
    ensures
        opt_bytes(r) == aes_gcm_opened(key@, nonce@, ct@),
{
    let cipher = aes_gcm::Aes256Gcm::new(aes_gcm::Key::<aes_gcm::Aes256Gcm>::from_slice(key));
    cipher.decrypt(aes_gcm::Nonce::from_slice(nonce), ct).ok()
}

/// Standard Base64 (with padding) of `bytes`.
pub uninterp spec fn base64_text(bytes: Seq<u8>) -> Seq<char>;

/// Standard Base64 decoding of `text`: `None` where it is not Base64.
pub uninterp spec fn base64_bytes(text: Seq<char>) -> Option<Seq<u8>>;

/// Encodes with base64's `STANDARD` engine; its decoding gives the bytes back.
#[verifier::external_body]
pub(crate) fn base64_encode(bytes: &[u8]) -> (r: String)
    ensures
        r@ == base64_text(bytes@),
        base64_bytes(r@) == Some(bytes@),
        r@.len() == (bytes@.len() + 2) / 3 * 4,
{
    base64::engine::general_purpose::STANDARD.encode(bytes)
}

/// Decodes with base64's `STANDARD` engine.
#[verifier::external_body]
fn base64_decode(text: &str) -> (r: Option<Vec<u8>>)
    ensures
        opt_bytes(r) == base64_bytes(text@),
{
    base64::engine::general_purpose::STANDARD.decode(text).ok()
}

/// `n` bytes from rand's `thread_rng` (any value may come).
#[verifier::external_body]
fn random_bytes(n: usize) -> (r: Vec<u8>)
    ensures
        r@.len() == n,
{
    let mut out = vec![0u8; n];
    rand::thread_rng().fill_bytes(&mut out);
    out
}

/// `String::from_utf8`: the text where the bytes are valid UTF-8.
#[verifier::external_body]
pub(crate) fn utf8_to_string(bytes: Vec<u8>) -> (r: Option<String>)
    ensures
        r is Some <==> valid_utf8(bytes@),
        r matches Some(s) ==> s@ == decode_utf8(bytes@),
{
    String::from_utf8(bytes).ok()
}

/// UTF-8 bytes of `s`.
pub(crate) fn str_bytes(s: &str) -> (r: Vec<u8>)
    ensures
        r@ == encode_utf8(s@),
{
    slice_to_vec(s.as_bytes())
}

// ---------------------------------------------------------------------------
// Key derivation
// ---------------------------------------------------------------------------
/// Salt text of the SHA-256 derivation.
pub open spec fn legacy_salt() -> Seq<char> {
    "onehub_password_encryption_salt_v1"@
}

/// Salt text of the Argon2id derivation of stored secrets.
pub open spec fn app_salt() -> Seq<char> {
    "omnihub-master-key-v3-argon2id-salt-v1"@
}

/// SHA-256 key of a master key (read path of the older formats).
pub open spec fn legacy_key(master: Seq<char>) -> Seq<u8> {
    sha256_of(encode_utf8(master) + encode_utf8(legacy_salt()))
}

/// Argon2id key of a master key with `salt`: all zero where Argon2 fails.
pub open spec fn argon_key(master: Seq<char>, salt: Seq<u8>) -> Seq<u8> {
    match argon2id_output(encode_utf8(master), salt) {
        Some(k) => k,
        None => Seq::new(32, |i: int| 0u8),
    }
}

/// Argon2id key of a master key with the application salt (the format written today).
pub open spec fn current_key(master: Seq<char>) -> Seq<u8> {
    argon_key(master, encode_utf8(app_salt()))
}

/// SHA-256 of the master key followed by the legacy salt.
pub fn derive_key(master_key: &str) -> (r: Vec<u8>)
    ensures
        r@ == legacy_key(master_key@),
        r@.len() == 32,
{
    let mut data = str_bytes(master_key);
    let salt = str_bytes("onehub_password_encryption_salt_v1");
    append_bytes(&mut data, salt.as_slice());
    sha256_digest(data.as_slice())
}

/// Argon2id of the master key with `salt`; all zero where Argon2 fails.
pub fn derive_key_v3(master_key: &str, salt: &[u8]) -> (r: Vec<u8>)
    ensures
        r@ == argon_key(master_key@, salt@),
        r@.len() == 32,
        encode_utf8(master_key@).len() <= 0xFFFF_FFFF && 8 <= salt@.len() <= 0xFFFF_FFFF
            ==> argon2id_output(encode_utf8(master_key@), salt@) is Some,
{
    let pwd = str_bytes(master_key);
    match argon2id_hash(pwd.as_slice(), salt) {
        Some(k) => k,
        None => {
            let z = zero_bytes(32);
            proof {
                assert(z@ =~= Seq::new(32, |i: int| 0u8));
            }
            z
        },
    }
}

/// The key of the format written today.
pub fn derive_current_key(master_key: &str) -> (r: Vec<u8>)
    ensures
        r@ == current_key(master_key@),
        r@.len() == 32,
{
    let salt = str_bytes("omnihub-master-key-v3-argon2id-salt-v1");
    derive_key_v3(master_key, salt.as_slice())
}

// ---------------------------------------------------------------------------
// Encrypting and decrypting with a given key
// ---------------------------------------------------------------------------
/// AES-GCM sealing as `aes_gcm_encrypt` does it: `None` over the size limit.
pub open spec fn seal(key: Seq<u8>, nonce: Seq<u8>, pt: Seq<u8>) -> Option<Seq<u8>> {
    if pt.len() <= aes_max_plaintext() {
        Some(aes_gcm_sealed(key, nonce, pt))
    } else {
        None
    }
}

/// What encrypting `pt` under the 32-byte `key` with `salt` and `nonce`
/// gives: `pt` itself where it is empty, already encrypted, or too long;
/// otherwise the `ENC:V3:` text.
pub open spec fn encrypt_outcome(pt: Seq<char>, key: Seq<u8>, salt: Seq<u8>, nonce: Seq<u8>) -> Seq<char> {
    if pt.len() == 0 || is_encrypted_spec(pt) {
        pt
    } else {
        match seal(key, nonce, encode_utf8(pt)) {
            Some(ct) => prefix_v3() + base64_text(salt + nonce + ct),
            None => pt,
        }
    }
}

/// Which format an encrypted text is in: 3, 2 or 1.
pub open spec fn format_of(enc: Seq<char>) -> int {
    if has_prefix(enc, prefix_v3()) {
        3
    } else if has_prefix(enc, prefix_v2()) {
        2
    } else {
        1
    }
}

/// The Base64 part of an encrypted text.
pub open spec fn encoded_part(enc: Seq<char>) -> Seq<char> {
    if format_of(enc) == 3 {
        enc.skip(prefix_v3().len() as int)
    } else if format_of(enc) == 2 {
        enc.skip(prefix_v2().len() as int)
    } else {
        enc.skip(prefix_v1().len() as int)
    }
}

/// Decrypting the decoded bytes `combined` of a format-`fmt` text under
/// `key`: nonce and ciphertext are after the salt in formats 2 and 3, at
/// the start in format 1.
pub open spec fn open_combined(combined: Seq<u8>, fmt: int, key: Seq<u8>) -> Result<Seq<char>, CryptoError> {
    if fmt != 1 && combined.len() < 28 {
        Err(CryptoError::InvalidDataFormat)
    } else if fmt == 1 && combined.len() < 12 {
        Err(CryptoError::InvalidDataFormat)
    } else {
        let nonce = if fmt != 1 { combined.subrange(16, 28) } else { combined.subrange(0, 12) };
        let ct = if fmt != 1 { combined.skip(28) } else { combined.skip(12) };
        match aes_gcm_opened(key, nonce, ct) {
            None => Err(CryptoError::DecryptionFailed),
            Some(p) => if valid_utf8(p) {
                Ok(decode_utf8(p))
            } else {
                Err(CryptoError::EncodingFailed)
            },
        }
    }
}

/// What decrypting `enc` with the master key `master` gives: text without
/// an `ENC:` prefix comes back as it is.
pub open spec fn decrypt_outcome(enc: Seq<char>, master: Seq<char>) -> Result<Seq<char>, CryptoError> {
    if enc.len() == 0 || !is_encrypted_spec(enc) {
        Ok(enc)
    } else {
        match base64_bytes(encoded_part(enc)) {
            None => Err(CryptoError::EncodingFailed),
            Some(combined) => open_combined(
                combined,
                format_of(enc),
                if format_of(enc) == 3 { current_key(master) } else { legacy_key(master) },
            ),
        }
    }
}

/// Views a result with a `String` as one with a character sequence.
pub open spec fn result_view(r: Result<String, CryptoError>) -> Result<Seq<char>, CryptoError> {
    match r {
        Ok(s) => Ok(s@),
        Err(e) => Err(e),
    }
}

/// Encrypts `pt` under the 32-byte `key` with a fresh random salt and
/// nonce; see `encrypt_outcome`. Whatever salt and nonce came, the result
/// decrypts back to `pt` under the key it was made with.
fn encrypt_under(pt: &str, key: &Vec<u8>) -> (r: String)
    requires
        key@.len() == 32,
        pt@.len() != 0,
        !is_encrypted_spec(pt@),
    ensures
        exists|salt: Seq<u8>, nonce: Seq<u8>|
            salt.len() == 16 && nonce.len() == 12 && r@ == encrypt_outcome(pt@, key@, salt, nonce),
        r@ == pt@ || (has_prefix(r@, prefix_v3()) && exists|combined: Seq<u8>|
            base64_bytes(r@.skip(prefix_v3().len() as int)) == Some(combined)
                && combined.len() >= 28 && aes_gcm_opened(key@, combined.subrange(16, 28), combined.skip(28))
                == Some(encode_utf8(pt@))),
{
    let salt = random_bytes(16);
    let nonce = random_bytes(12);
    let bytes = str_bytes(pt);
    match aes_gcm_encrypt(key.as_slice(), nonce.as_slice(), bytes.as_slice()) {
        Some(ct) => {
            let mut combined = Vec::new();
            append_bytes(&mut combined, salt.as_slice());
            append_bytes(&mut combined, nonce.as_slice());
            append_bytes(&mut combined, ct.as_slice());
            let b64 = base64_encode(combined.as_slice());
            let mut out = to_chars("ENC:V3:");
            let tail = to_chars(b64.as_str());
            let ghost head = out@;
            crate::text::push_str(&mut out, &tail);
            let r = string_from_chars(&out);
            proof {
                assert(combined@ =~= salt@ + nonce@ + ct@);
                assert(out@.skip(head.len() as int) =~= b64@);
                assert(combined@.subrange(16, 28) =~= nonce@);
                assert(combined@.skip(28) =~= ct@);
                assert(out@.subrange(0, head.len() as int) =~= head);
                assert(seal(key@, nonce@, encode_utf8(pt@)) == Some(ct@));
                assert(r@ == encrypt_outcome(pt@, key@, salt@, nonce@));
            }
            r
        },
        None => {
            let r = String::from_str(pt);
            assert(r@ == encrypt_outcome(pt@, key@, salt@, nonce@));
            r
        },
    }
}

/// Encrypts `plaintext` for storage under `master_key` in the `ENC:V3:`
/// format. Empty or already encrypted text, and text AES-GCM cannot take,
/// comes back unchanged. What it returns decrypts back to `plaintext`
/// with the same master key.
pub fn encrypt_with_key(plaintext: &str, master_key: &str) -> (r: String)
    ensures
        exists|salt: Seq<u8>, nonce: Seq<u8>|
            salt.len() == 16 && nonce.len() == 12 && r@ == encrypt_outcome(
                plaintext@,
                current_key(master_key@),
                salt,
                nonce,
            ),
        !is_encrypted_spec(plaintext@) ==> decrypt_outcome(r@, master_key@) == Ok::<Seq<char>, CryptoError>(plaintext@),
{
    if plaintext.is_empty() || is_encrypted(plaintext) {
        let r = String::from_str(plaintext);
        proof {
            let salt = Seq::new(16, |i: int| 0u8);
            let nonce = Seq::new(12, |i: int| 0u8);
            assert(r@ == encrypt_outcome(plaintext@, current_key(master_key@), salt, nonce));
        }
        return r;
    }
    let key = derive_current_key(master_key);
    let r = encrypt_under(plaintext, &key);
    proof {
        reveal_strlit("ENC:");
        reveal_strlit("ENC:V2:");
        reveal_strlit("ENC:V3:");
        broadcast use encode_utf8_decode_utf8, encode_utf8_valid_utf8;

        if r@ != plaintext@ {
            let combined = choose|combined: Seq<u8>|
                base64_bytes(r@.skip(prefix_v3().len() as int)) == Some(combined)
                    && combined.len() >= 28 && aes_gcm_opened(
                    key@,
                    combined.subrange(16, 28),
                    combined.skip(28),
                ) == Some(encode_utf8(plaintext@));
            assert(format_of(r@) == 3);
            assert(is_encrypted_spec(r@));
        }
    }
    r
}

/// Decrypts `encrypted` with `master_key` in any of the three formats;
/// text without an `ENC:` prefix comes back unchanged. See
/// `decrypt_outcome` for which error comes on which input.
pub fn decrypt_with_key(encrypted: &str, master_key: &str) -> (r: Result<String, CryptoError>)
    ensures
        result_view(r) == decrypt_outcome(encrypted@, master_key@),
{
    if encrypted.is_empty() || !is_encrypted(encrypted) {
        return Ok(String::from_str(encrypted));
    }
    let v = to_chars(encrypted);
    let is_v3 = starts_with_str(&v, "ENC:V3:");
    let is_v2 = !is_v3 && starts_with_str(&v, "ENC:V2:");
    proof {
        reveal_strlit("ENC:");
        reveal_strlit("ENC:V2:");
        reveal_strlit("ENC:V3:");
    }
    let skip: usize = if is_v3 {
        7
    } else if is_v2 {
        7
    } else {
        4
    };
    let encoded_chars = slice_chars(&v, skip, v.len());
    let encoded = string_from_chars(&encoded_chars);
    assert(encoded@ =~= encoded_part(encrypted@));
    let combined = match base64_decode(encoded.as_str()) {
        Some(c) => c,
        None => return Err(CryptoError::EncodingFailed),
    };
    let key = if is_v3 {
        derive_current_key(master_key)
    } else {
        derive_key(master_key)
    };
    let (nonce, ct) = if is_v3 || is_v2 {
        if combined.len() < 28 {
            return Err(CryptoError::InvalidDataFormat);
        }
        (byte_range(&combined, 16, 28), byte_range(&combined, 28, combined.len()))
    } else {
        if combined.len() < 12 {
            return Err(CryptoError::InvalidDataFormat);
        }
        (byte_range(&combined, 0, 12), byte_range(&combined, 12, combined.len()))
    };
    match aes_gcm_decrypt(key.as_slice(), nonce.as_slice(), ct.as_slice()) {
        Some(p) => match utf8_to_string(p) {
            Some(s) => Ok(s),
            None => Err(CryptoError::EncodingFailed),
        },
        None => Err(CryptoError::DecryptionFailed),
    }
}

/// Whether `enc` is what encrypting `pt` under the master key `master`
/// gives for some salt and nonce.
pub open spec fn encrypted_from(enc: Seq<char>, pt: Seq<char>, master: Seq<char>) -> bool {
    exists|salt: Seq<u8>, nonce: Seq<u8>|
        #![trigger encrypt_outcome(pt, current_key(master), salt, nonce)]
        salt.len() == 16 && nonce.len() == 12 && enc == encrypt_outcome(
            pt,
            current_key(master),
            salt,
            nonce,
        )
}

/// Moves `encrypted_data` from `old_key` to `new_key`: plain text is
/// encrypted under the new key, encrypted text is decrypted under the old
/// key (its error passed on) and encrypted again.
pub fn re_encrypt_data(encrypted_data: &str, old_key: &str, new_key: &str) -> (r: Result<
    String,
    CryptoError,
>)
    ensures
        !is_encrypted_spec(encrypted_data@) ==> r is Ok && encrypted_from(
            r->Ok_0@,
            encrypted_data@,
            new_key@,
        ),
        is_encrypted_spec(encrypted_data@) ==> match decrypt_outcome(encrypted_data@, old_key@) {
            Err(e) => r == Err::<String, CryptoError>(e),
            Ok(p) => r is Ok && encrypted_from(r->Ok_0@, p, new_key@),
        },
        r matches Ok(s) ==> match decrypt_outcome(encrypted_data@, old_key@) {
            Ok(p) => !is_encrypted_spec(p) ==> decrypt_outcome(s@, new_key@) == Ok::<
                Seq<char>,
                CryptoError,
            >(p),
            Err(_) => true,
        },
{
    if !is_encrypted(encrypted_data) {
        return Ok(encrypt_with_key(encrypted_data, new_key));
    }
    let plaintext = match decrypt_with_key(encrypted_data, old_key) {
        Ok(p) => p,
        Err(e) => return Err(e),
    };
    let r = encrypt_with_key(plaintext.as_str(), new_key);
    let ghost w: (Seq<u8>, Seq<u8>) = choose|salt: Seq<u8>, nonce: Seq<u8>|
        salt.len() == 16 && nonce.len() == 12 && r@ == encrypt_outcome(
            plaintext@,
            current_key(new_key@),
            salt,
            nonce,
        );
    assert(decrypt_outcome(encrypted_data@, old_key@) == Ok::<Seq<char>, CryptoError>(plaintext@));
    let out: Result<String, CryptoError> = Ok(r);
    assert(out->Ok_0@ == encrypt_outcome(plaintext@, current_key(new_key@), w.0, w.1));
    assert(encrypted_from(out->Ok_0@, plaintext@, new_key@));
    out
}


// ---------------------------------------------------------------------------
// Verification data
// ---------------------------------------------------------------------------
/// The text encrypted in verification data.
pub open spec fn verification_magic() -> Seq<char> {
    "ONEHUB_KEY_VERIFY_V1"@
}

/// Marker bytes of the Argon2id verification formats.
pub open spec fn marker_v2() -> Seq<u8> {
    encode_utf8("V2:"@)
}

/// Marker bytes of the format written today.
pub open spec fn marker_v3() -> Seq<u8> {
    encode_utf8("V3:"@)
}

/// Marker bytes of the `V3:` (`v3`) or `V2:` format.
pub open spec fn marker_of(v3: bool) -> Seq<u8> {
    if v3 {
        marker_v3()
    } else {
        marker_v2()
    }
}

/// Whether `p` is the UTF-8 text of the magic string.
pub open spec fn is_magic(p: Seq<u8>) -> bool {
    valid_utf8(p) && decode_utf8(p) == verification_magic()
}

/// Whether `master` opens the verification data `data`.
pub open spec fn verify_outcome(master: Seq<char>, data: Seq<char>) -> bool {
    data.len() > 0 && match base64_bytes(data) {
        None => false,
        Some(c) => c.len() >= 15 && if byte_prefix(c, marker_v2()) || byte_prefix(c, marker_v3()) {
            let body = c.skip(3);
            body.len() >= 28 && match argon2id_output(encode_utf8(master), body.subrange(0, 16)) {
                None => false,
                Some(k) => match aes_gcm_opened(k, body.subrange(16, 28), body.skip(28)) {
                    None => false,
                    Some(p) => is_magic(p),
                },
            }
        } else {
            match aes_gcm_opened(legacy_key(master), c.subrange(0, 12), c.skip(12)) {
                None => false,
                Some(p) => is_magic(p),
            }
        },
    }
}

/// UTF-8 bytes of the magic text: 20 ASCII bytes.
fn magic_bytes() -> (r: Vec<u8>)
    ensures
        r@ == encode_utf8(verification_magic()),
        r@.len() == 20,
        is_magic(r@),
{
    let r = str_bytes("ONEHUB_KEY_VERIFY_V1");
    proof {
        reveal_strlit("ONEHUB_KEY_VERIFY_V1");
        assert(is_ascii_chars(verification_magic()));
        is_ascii_chars_encode_utf8(verification_magic());
        encode_utf8_valid_utf8(verification_magic());
        encode_utf8_decode_utf8(verification_magic());
    }
    r
}

/// Marker bytes of one verification format: three ASCII bytes.
fn marker_bytes(v3: bool) -> (r: Vec<u8>)
    ensures
        r@ == marker_of(v3),
        r@.len() == 3,
{
    proof {
        reveal_strlit("V2:");
        reveal_strlit("V3:");
        assert(is_ascii_chars("V2:"@));
        assert(is_ascii_chars("V3:"@));
        is_ascii_chars_encode_utf8("V2:"@);
        is_ascii_chars_encode_utf8("V3:"@);
    }
    if v3 {
        str_bytes("V3:")
    } else {
        str_bytes("V2:")
    }
}

/// Verification data under the SHA-256 key: `base64(nonce + ciphertext)`.
pub open spec fn verification_v1(master: Seq<char>, nonce: Seq<u8>) -> Seq<char> {
    base64_text(nonce + aes_gcm_sealed(legacy_key(master), nonce, encode_utf8(verification_magic())))
}

/// Verification data under Argon2id with `salt`: `base64(marker + salt +
/// nonce + ciphertext)`.
pub open spec fn verification_argon(
    master: Seq<char>,
    marker: Seq<u8>,
    salt: Seq<u8>,
    nonce: Seq<u8>,
) -> Seq<char> {
    base64_text(
        marker + salt + nonce + aes_gcm_sealed(
            argon_key(master, salt),
            nonce,
            encode_utf8(verification_magic()),
        ),
    )
}

/// Verification data in the oldest format, under the SHA-256 key of
/// `master_key`. It verifies unless the random nonce happens to begin with
/// a `V2:` or `V3:` marker.
pub fn generate_key_verification_v1(master_key: &str) -> (r: String)
    ensures
        exists|nonce: Seq<u8>|
            #![trigger verification_v1(master_key@, nonce)]
            nonce.len() == 12 && r@ == verification_v1(master_key@, nonce) && (!byte_prefix(
                nonce,
                marker_v2(),
            ) && !byte_prefix(nonce, marker_v3()) ==> verify_outcome(master_key@, r@)),
{
    let key = derive_key(master_key);
    let nonce = random_bytes(12);
    let magic = magic_bytes();
    let ct = match aes_gcm_encrypt(key.as_slice(), nonce.as_slice(), magic.as_slice()) {
        Some(c) => c,
        None => {
            assert(false);
            return String::new();
        },
    };
    let mut combined = Vec::new();
    append_bytes(&mut combined, nonce.as_slice());
    append_bytes(&mut combined, ct.as_slice());
    let r = base64_encode(combined.as_slice());
    proof {
        assert(combined@ =~= nonce@ + ct@);
        assert(combined@.subrange(0, 12) =~= nonce@);
        assert(combined@.skip(12) =~= ct@);
        if !byte_prefix(nonce@, marker_v2()) && !byte_prefix(nonce@, marker_v3()) {
            assert(marker_v2().len() == 3) by {
                reveal_strlit("V2:");
                assert(is_ascii_chars("V2:"@));
                is_ascii_chars_encode_utf8("V2:"@);
            }
            assert(marker_v3().len() == 3) by {
                reveal_strlit("V3:");
                assert(is_ascii_chars("V3:"@));
                is_ascii_chars_encode_utf8("V3:"@);
            }
            assert(combined@.subrange(0, 3) =~= nonce@.subrange(0, 3));
            assert(!byte_prefix(combined@, marker_v2()));
            assert(!byte_prefix(combined@, marker_v3()));
            assert(verify_outcome(master_key@, r@));
        }
        assert(r@ == verification_v1(master_key@, nonce@));
    }
    r
}

/// Verification data under Argon2id with a fresh salt, behind `marker`.
fn generate_argon_verification(master_key: &str, v3: bool) -> (r: String)
    ensures
        exists|salt: Seq<u8>, nonce: Seq<u8>|
            #![trigger verification_argon(master_key@, marker_of(v3), salt, nonce)]
            salt.len() == 16 && nonce.len() == 12 && r@ == verification_argon(
                master_key@,
                marker_of(v3),
                salt,
                nonce,
            ),
        encode_utf8(master_key@).len() <= 0xFFFF_FFFF ==> verify_outcome(master_key@, r@),
{
    let salt = random_bytes(16);
    let key = derive_key_v3(master_key, salt.as_slice());
    let nonce = random_bytes(12);
    let magic = magic_bytes();
    let ct = match aes_gcm_encrypt(key.as_slice(), nonce.as_slice(), magic.as_slice()) {
        Some(c) => c,
        None => {
            assert(false);
            return String::new();
        },
    };
    let marker = marker_bytes(v3);
    let mut combined = Vec::new();
    append_bytes(&mut combined, marker.as_slice());
    append_bytes(&mut combined, salt.as_slice());
    append_bytes(&mut combined, nonce.as_slice());
    append_bytes(&mut combined, ct.as_slice());
    let r = base64_encode(combined.as_slice());
    proof {
        let body = combined@.skip(3);
        assert(combined@ =~= marker@ + salt@ + nonce@ + ct@);
        assert(combined@.subrange(0, 3) =~= marker@);
        assert(body =~= salt@ + nonce@ + ct@);
        assert(body.subrange(0, 16) =~= salt@);
        assert(body.subrange(16, 28) =~= nonce@);
        assert(body.skip(28) =~= ct@);
        assert(r@ == verification_argon(
            master_key@,
            marker_of(v3),
            salt@,
            nonce@,
        ));
        if encode_utf8(master_key@).len() <= 0xFFFF_FFFF {
            assert(argon2id_output(encode_utf8(master_key@), salt@) is Some);
            assert(verify_outcome(master_key@, r@));
        }
    }
    r
}

/// Verification data in the `V2:` format.
pub fn generate_key_verification(master_key: &str) -> (r: String)
    ensures
        exists|salt: Seq<u8>, nonce: Seq<u8>|
            #![trigger verification_argon(master_key@, marker_v2(), salt, nonce)]
            salt.len() == 16 && nonce.len() == 12 && r@ == verification_argon(
                master_key@,
                marker_v2(),
                salt,
                nonce,
            ),
        encode_utf8(master_key@).len() <= 0xFFFF_FFFF ==> verify_outcome(master_key@, r@),
{
    generate_argon_verification(master_key, false)
}

/// Verification data in the `V3:` format, the one written today.
pub fn generate_key_verification_v3(master_key: &str) -> (r: String)
    ensures
        exists|salt: Seq<u8>, nonce: Seq<u8>|
            #![trigger verification_argon(master_key@, marker_v3(), salt, nonce)]
            salt.len() == 16 && nonce.len() == 12 && r@ == verification_argon(
                master_key@,
                marker_v3(),
                salt,
                nonce,
            ),
        encode_utf8(master_key@).len() <= 0xFFFF_FFFF ==> verify_outcome(master_key@, r@),
{
    generate_argon_verification(master_key, true)
}

/// The verification data to save when `master_key` is set: fresh data in
/// the `V3:` format where none is saved yet (`already_saved` false),
/// nothing where some is, so that the first key set stays the one checked.
pub fn verification_to_save(master_key: &str, already_saved: bool) -> (r: Option<String>)
    ensures
        already_saved ==> r is None,
        !already_saved ==> (r matches Some(d) && (exists|salt: Seq<u8>, nonce: Seq<u8>|
            #![trigger verification_argon(master_key@, marker_v3(), salt, nonce)]
            salt.len() == 16 && nonce.len() == 12 && d@ == verification_argon(
                master_key@,
                marker_v3(),
                salt,
                nonce,
            ))),
        !already_saved && encode_utf8(master_key@).len() <= 0xFFFF_FFFF ==> (r matches Some(d)
            && verify_outcome(master_key@, d@)),
{
    if already_saved {
        None
    } else {
        Some(generate_key_verification_v3(master_key))
    }
}

/// Whether `master_key` opens `verification_data` (any of its formats).
pub fn verify_master_key(master_key: &str, verification_data: &str) -> (r: bool)
    ensures
        r == verify_outcome(master_key@, verification_data@),
{
    if verification_data.is_empty() {
        return false;
    }
    let combined = match base64_decode(verification_data) {
        Some(c) => c,
        None => return false,
    };
    if combined.len() < 15 {
        return false;
    }
    let m2 = marker_bytes(false);
    let m3 = marker_bytes(true);
    let plain = if bytes_start_with(combined.as_slice(), m2.as_slice()) || bytes_start_with(
        combined.as_slice(),
        m3.as_slice(),
    ) {
        let body = byte_range(&combined, 3, combined.len());
        if body.len() < 28 {
            return false;
        }
        let salt = byte_range(&body, 0, 16);
        let nonce = byte_range(&body, 16, 28);
        let ct = byte_range(&body, 28, body.len());
        let pwd = str_bytes(master_key);
        let key = match argon2id_hash(pwd.as_slice(), salt.as_slice()) {
            Some(k) => k,
            None => return false,
        };
        assert(body@ =~= combined@.skip(3));
        aes_gcm_decrypt(key.as_slice(), nonce.as_slice(), ct.as_slice())
    } else {
        let nonce = byte_range(&combined, 0, 12);
        let ct = byte_range(&combined, 12, combined.len());
        let key = derive_key(master_key);
        aes_gcm_decrypt(key.as_slice(), nonce.as_slice(), ct.as_slice())
    };
    match plain {
        Some(p) => match utf8_to_string(p) {
            Some(s) => {
                proof {
                    reveal_strlit("ONEHUB_KEY_VERIFY_V1");
                }
                crate::text::str_eq(s.as_str(), "ONEHUB_KEY_VERIFY_V1")
            },
            None => false,
        },
        None => false,
    }
}

// ---------------------------------------------------------------------------
// The master key in memory
// ---------------------------------------------------------------------------
/// What decrypting a stored secret gives with the keys in memory: text
/// without an `ENC:` prefix as it is, and the empty text for every failure
/// (no key, bad Base64, short data, wrong key, invalid UTF-8).
pub open spec fn password_outcome(
    enc: Seq<char>,
    legacy: Option<Seq<u8>>,
    current: Option<Seq<u8>>,
) -> Seq<char> {
    if enc.len() == 0 || !is_encrypted_spec(enc) {
        enc
    } else {
        match base64_bytes(encoded_part(enc)) {
            None => Seq::empty(),
            Some(c) => match (if format_of(enc) == 3 { current } else { legacy }) {
                None => Seq::empty(),
                Some(k) => match open_combined(c, format_of(enc), k) {
                    Ok(p) => p,
                    Err(_) => Seq::empty(),
                },
            },
        }
    }
}

/// Once the keys of a master key are held, a non-empty password without an
/// `ENC:` prefix, within AES-GCM's size limit, encrypts to `ENC:V3:` text
/// (and `encrypt_password` states that it decrypts back with the same keys).
pub proof fn law_held_key_encrypts_in_v3(
    state: MasterKeyState,
    master: Seq<char>,
    password: Seq<char>,
    salt: Seq<u8>,
    nonce: Seq<u8>,
)
    requires
        state.wf(),
        state.holds(master),
        password.len() > 0,
        !is_encrypted_spec(password),
        encode_utf8(password).len() <= aes_max_plaintext(),
    ensures
        state.has_master_key_spec(),
        has_prefix(encrypt_outcome(password, state.current_view()->0, salt, nonce), prefix_v3()),
{
    let k = state.current_view()->0;
    let ct = aes_gcm_sealed(k, nonce, encode_utf8(password));
    let e = prefix_v3() + base64_text(salt + nonce + ct);
    assert(e.take(prefix_v3().len() as int) =~= prefix_v3());
}

/// The keys derived from the master key, held for encrypting and
/// decrypting stored secrets: the SHA-256 key reads the older formats, the
/// Argon2id key reads and writes the current one.
#[derive(Debug)]
pub struct MasterKeyState {
    legacy: Option<Vec<u8>>,
    current: Option<Vec<u8>>,
}

impl MasterKeyState {
    /// The SHA-256 key held, if any.
    pub closed spec fn legacy_view(&self) -> Option<Seq<u8>> {
        opt_bytes(self.legacy)
    }

    /// The Argon2id key held, if any.
    pub closed spec fn current_view(&self) -> Option<Seq<u8>> {
        opt_bytes(self.current)
    }

    /// Both keys are held or neither, each of 32 bytes.
    pub open spec fn wf(&self) -> bool {
        &&& (self.legacy_view() is Some <==> self.current_view() is Some)
        &&& (self.legacy_view() matches Some(k) ==> k.len() == 32)
        &&& (self.current_view() matches Some(k) ==> k.len() == 32)
    }

    /// Whether the keys held are those of `master`.
    pub open spec fn holds(&self, master: Seq<char>) -> bool {
        self.legacy_view() == Some(legacy_key(master)) && self.current_view() == Some(
            current_key(master),
        )
    }

    /// No key held.
    pub open spec fn is_clear(&self) -> bool {
        self.legacy_view() is None && self.current_view() is None
    }

    /// State without a key.
    pub fn new() -> (r: Self)
        ensures
            r.wf(),
            r.is_clear(),
    {
        MasterKeyState { legacy: None, current: None }
    }

    /// Derives and holds both keys of `master_key`.
    pub fn set_master_key(&mut self, master_key: &str)
        ensures
            final(self).wf(),
            final(self).holds(master_key@),
    {
        self.legacy = Some(derive_key(master_key));
        self.current = Some(derive_current_key(master_key));
    }

    /// Drops the keys.
    pub fn clear_master_key(&mut self)
        ensures
            final(self).wf(),
            final(self).is_clear(),
    {
        self.legacy = None;
        self.current = None;
    }

    /// Whether a key is held.
    pub open spec fn has_master_key_spec(&self) -> bool {
        self.legacy_view() is Some
    }

    /// Whether a key is held.
    pub fn has_master_key(&self) -> (r: bool)
        ensures
            r == self.has_master_key_spec(),
    {
        self.legacy.is_some()
    }

    /// Encrypts `password` in the `ENC:V3:` format with the key held. Empty
    /// or already encrypted text, or any text while no key is held, comes
    /// back unchanged. What it returns decrypts back to `password` with the
    /// same keys.
    pub fn encrypt_password(&self, password: &str) -> (r: String)
        requires
            self.wf(),
        ensures
            self.current_view() is None ==> r@ == password@,
            self.current_view() matches Some(k) ==> exists|salt: Seq<u8>, nonce: Seq<u8>|
                #![trigger encrypt_outcome(password@, k, salt, nonce)]
                salt.len() == 16 && nonce.len() == 12 && r@ == encrypt_outcome(
                    password@,
                    k,
                    salt,
                    nonce,
                ),
            !is_encrypted_spec(password@) ==> password_outcome(
                r@,
                self.legacy_view(),
                self.current_view(),
            ) == password@,
    {
        if password.is_empty() || is_encrypted(password) {
            let r = String::from_str(password);
            proof {
                if self.current_view() is Some {
                    let k = self.current_view()->0;
                    let salt = Seq::new(16, |i: int| 0u8);
                    let nonce = Seq::new(12, |i: int| 0u8);
                    assert(r@ == encrypt_outcome(password@, k, salt, nonce));
                }
            }
            return r;
        }
        match &self.current {
            None => String::from_str(password),
            Some(key) => {
                let r = encrypt_under(password, key);
                proof {
                    reveal_strlit("ENC:");
                    reveal_strlit("ENC:V2:");
                    reveal_strlit("ENC:V3:");
                    broadcast use encode_utf8_decode_utf8, encode_utf8_valid_utf8;

                    if r@ != password@ {
                        assert(format_of(r@) == 3);
                        assert(is_encrypted_spec(r@));
                    }
                }
                r
            },
        }
    }

    /// Decrypts `encrypted` with the keys held: `ENC:V3:` with the Argon2id
    /// key, the older formats with the SHA-256 key. Text without an `ENC:`
    /// prefix comes back unchanged; every failure gives the empty text.
    pub fn decrypt_password(&self, encrypted: &str) -> (r: String)
        requires
            self.wf(),
        ensures
            r@ == password_outcome(encrypted@, self.legacy_view(), self.current_view()),
    {
        if encrypted.is_empty() || !is_encrypted(encrypted) {
            return String::from_str(encrypted);
        }
        let v = to_chars(encrypted);
        let is_v3 = starts_with_str(&v, "ENC:V3:");
        let is_v2 = !is_v3 && starts_with_str(&v, "ENC:V2:");
        proof {
            reveal_strlit("ENC:");
            reveal_strlit("ENC:V2:");
            reveal_strlit("ENC:V3:");
        }
        let skip: usize = if is_v3 || is_v2 {
            7
        } else {
            4
        };
        let encoded_chars = slice_chars(&v, skip, v.len());
        let encoded = string_from_chars(&encoded_chars);
        assert(encoded@ =~= encoded_part(encrypted@));
        let combined = match base64_decode(encoded.as_str()) {
            Some(c) => c,
            None => return String::new(),
        };
        let slot = if is_v3 {
            &self.current
        } else {
            &self.legacy
        };
        let key = match slot {
            Some(k) => k,
            None => return String::new(),
        };
        let (nonce, ct) = if is_v3 || is_v2 {
            if combined.len() < 28 {
                return String::new();
            }
            (byte_range(&combined, 16, 28), byte_range(&combined, 28, combined.len()))
        } else {
            if combined.len() < 12 {
                return String::new();
            }
            (byte_range(&combined, 0, 12), byte_range(&combined, 12, combined.len()))
        };
        match aes_gcm_decrypt(key.as_slice(), nonce.as_slice(), ct.as_slice()) {
            Some(p) => match utf8_to_string(p) {
                Some(s) => s,
                None => String::new(),
            },
            None => String::new(),
        }
    }

    /// Sets the master key: holds its keys, and gives the verification
    /// data to save, fresh `V3:` data where none was saved before
    /// (`already_saved` false) and none where some was (see
    /// `verification_to_save`).
    pub fn set_master_key_with_verification(&mut self, master_key: &str, already_saved: bool) -> (r:
        Option<String>)
        ensures
            final(self).wf(),
            final(self).holds(master_key@),
            already_saved ==> r is None,
            !already_saved ==> (r matches Some(d) && (exists|salt: Seq<u8>, nonce: Seq<u8>|
                #![trigger verification_argon(master_key@, marker_v3(), salt, nonce)]
                salt.len() == 16 && nonce.len() == 12 && d@ == verification_argon(
                    master_key@,
                    marker_v3(),
                    salt,
                    nonce,
                ))),
            !already_saved && encode_utf8(master_key@).len() <= 0xFFFF_FFFF ==> (r matches Some(d)
                && verify_outcome(master_key@, d@)),
    {
        self.set_master_key(master_key);
        verification_to_save(master_key, already_saved)
    }

    /// Sets the master key after checking it against `verification`, the
    /// saved verification data where a master key was set before: a key
    /// that does not open it is refused and nothing changes.
    pub fn verify_and_set_master_key(&mut self, verification: Option<&str>, master_key: &str) -> (r:
        Result<(), &'static str>)
        ensures
            r is Err <==> (verification matches Some(d) && !verify_outcome(master_key@, d@)),
            r is Err ==> r == Err::<(), &'static str>("密码错误") && *final(self) == *old(self),
            r is Ok ==> final(self).wf() && final(self).holds(master_key@),
    {
        if let Some(d) = verification {
            if !verify_master_key(master_key, d) {
                return Err("密码错误");
            }
        }
        self.set_master_key(master_key);
        Ok(())
    }

    /// Takes back the master key kept by the key storage at start-up:
    /// nothing happens where no master key was ever set or none is kept; a
    /// kept key that does not open the verification data is rejected (the
    /// caller deletes it); otherwise its keys are held.
    pub fn restore_master_key(
        &mut self,
        password_set: bool,
        stored: Option<&str>,
        verification: Option<&str>,
    ) -> (r: RestoreOutcome)
        ensures
            !password_set ==> r == RestoreOutcome::NothingToRestore,
            password_set && stored is None ==> r == RestoreOutcome::NothingToRestore,
            password_set && stored is Some ==> if verification is Some && !verify_outcome(
                stored->0@,
                verification->0@,
            ) {
                r == RestoreOutcome::StoredKeyRejected
            } else {
                r == RestoreOutcome::Restored
            },
            r == RestoreOutcome::Restored ==> final(self).wf() && final(self).holds(
                stored->0@,
            ),
            r != RestoreOutcome::Restored ==> *final(self) == *old(self),
    {
        if !password_set {
            return RestoreOutcome::NothingToRestore;
        }
        let key = match stored {
            Some(k) => k,
            None => return RestoreOutcome::NothingToRestore,
        };
        if let Some(d) = verification {
            if !verify_master_key(key, d) {
                return RestoreOutcome::StoredKeyRejected;
            }
        }
        self.set_master_key(key);
        RestoreOutcome::Restored
    }
}

impl Default for MasterKeyState {
    fn default() -> (r: Self)
        ensures
            r.wf(),
            r.is_clear(),
    {
        Self::new()
    }
}

/// What a start-up restore of the master key did.
#[derive(Debug, Clone, Copy, PartialEq, Eq, Structural)]
pub enum RestoreOutcome {
    /// No master key was set, or none is kept: nothing restored.
    NothingToRestore,
    /// The kept key does not open the verification data: to be deleted.
    StoredKeyRejected,
    /// The kept key is held again.
    Restored,
}

/// Checks a change of master key and makes the new verification data:
/// refused where no master key was set or its verification data is
/// missing, where `old_key` does not open it, where `new_key` is empty, and
/// where the confirmation differs, in that order. The caller saves the data
/// and then sets the new key.
pub fn change_master_key(
    password_set: bool,
    verification: Option<&str>,
    old_key: &str,
    new_key: &str,
    confirm_new_key: &str,
) -> (r: Result<String, CryptoError>)
    ensures
        !password_set ==> r == Err::<String, CryptoError>(CryptoError::NoPasswordSet),
        password_set && verification is None ==> r == Err::<String, CryptoError>(
            CryptoError::NoPasswordSet,
        ),
        password_set && verification is Some ==> {
            if !verify_outcome(old_key@, verification->0@) {
                r == Err::<String, CryptoError>(CryptoError::InvalidOldPassword)
            } else if new_key@.len() == 0 {
                r == Err::<String, CryptoError>(CryptoError::EmptyNewPassword)
            } else if new_key@ != confirm_new_key@ {
                r == Err::<String, CryptoError>(CryptoError::PasswordMismatch)
            } else {
                r is Ok && exists|salt: Seq<u8>, nonce: Seq<u8>|
                    #![trigger verification_argon(new_key@, marker_v3(), salt, nonce)]
                    salt.len() == 16 && nonce.len() == 12 && r->Ok_0@ == verification_argon(
                        new_key@,
                        marker_v3(),
                        salt,
                        nonce,
                    )
            }
        },
        r matches Ok(s) ==> encode_utf8(new_key@).len() <= 0xFFFF_FFFF ==> verify_outcome(
            new_key@,
            s@,
        ),
{
    if !password_set {
        return Err(CryptoError::NoPasswordSet);
    }
    match verification {
        Some(d) => {
            if !verify_master_key(old_key, d) {
                return Err(CryptoError::InvalidOldPassword);
            }
        },
        None => return Err(CryptoError::NoPasswordSet),
    }
    if new_key.is_empty() {
        return Err(CryptoError::EmptyNewPassword);
    }
    if !crate::text::str_eq(new_key, confirm_new_key) {
        return Err(CryptoError::PasswordMismatch);
    }
    Ok(generate_key_verification_v3(new_key))
}

/// Runs `f` on the master key kept by the key storage (`stored`); `None`
/// where none is kept.
pub fn with_raw_master_key<F: FnOnce(&str) -> R, R>(stored: Option<&str>, f: F) -> (r: Option<R>)
    requires
        stored matches Some(k) ==> f.requires((k,)),
    ensures
        r is Some <==> stored is Some,
        r matches Some(v) ==> f.ensures((stored->0,), v),
{
    match stored {
        Some(k) => Some(f(k)),
        None => None,
    }
}

} // verus!
