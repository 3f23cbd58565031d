//! The cloud sync service: the master key entered for sync, the sign-in
//! state, the per-kind operation queues, and the sealing of records
//! (checksum and encryption) before upload.
use crate::crypto::{
    decrypt_outcome, decrypt_with_key, encrypt_with_key, encrypted_from, generate_key_verification_v1,
    is_encrypted_spec, result_view, sha256_digest, sha256_of, str_bytes, verification_v1,
    verify_master_key, verify_outcome, CryptoError,
};
use crate::models::{
    clone_opt_string, opt_view, Certificate, CertificateKind, CloudSyncData, ConnectionType, ProviderConfig, ProviderType,
    StoredConnection, Workspace,
};
use crate::queue::OperationQueue;
use crate::sync_plan::{millis_to_secs, secs_of_millis, SyncError};
use crate::text::{str_eq, string_from_chars, to_chars, push_str};
use vstd::prelude::*;
use vstd::utf8::*;

verus! {

/// The message shown for a sync error.
pub open spec fn sync_error_text(e: SyncError) -> Seq<char> {
    match e {
        SyncError::NotUnlocked => "请先输入主密钥解锁"@,
        SyncError::InvalidMasterKey => "主密钥错误"@,
        SyncError::CloudMasterKeyMismatch(m) => m@,
        SyncError::KeyVersionMismatch => "密钥版本不匹配，请重新同步"@,
        SyncError::NetworkError(m) => "网络错误: "@ + m@,
        SyncError::CryptoError(c) => "加解密错误: "@ + crypto_message(c),
        SyncError::DataFormatError(m) => "数据格式错误: "@ + m@,
        SyncError::StorageError(m) => "存储错误: "@ + m@,
        SyncError::NotLoggedIn => "请先登录云端账户"@,
    }
}

impl SyncError {
    /// The message shown for this error.
    pub fn message(&self) -> (r: String)
        ensures
            r@ == sync_error_text(*self),
    {
        match self {
            SyncError::NotUnlocked => String::from_str("请先输入主密钥解锁"),
            SyncError::InvalidMasterKey => String::from_str("主密钥错误"),
            SyncError::CloudMasterKeyMismatch(m) => m.clone(),
            SyncError::KeyVersionMismatch => String::from_str("密钥版本不匹配，请重新同步"),
            SyncError::NetworkError(m) => joined("网络错误: ", m.as_str()),
            SyncError::CryptoError(e) => {
                let m = e.message();
                joined("加解密错误: ", m.as_str())
            },
            SyncError::DataFormatError(m) => joined("数据格式错误: ", m.as_str()),
            SyncError::StorageError(m) => joined("存储错误: ", m.as_str()),
            SyncError::NotLoggedIn => String::from_str("请先登录云端账户"),
        }
    }
}

/// The message of a crypto error.
pub open spec fn crypto_message(e: CryptoError) -> Seq<char> {
    match e {
        CryptoError::InvalidOldPassword => "旧密码错误"@,
        CryptoError::EmptyNewPassword => "新密码不能为空"@,
        CryptoError::PasswordMismatch => "两次输入的新密码不一致"@,
        CryptoError::NoPasswordSet => "未设置过主密码"@,
        CryptoError::SaveVerificationFailed => "保存验证数据失败"@,
        CryptoError::DecryptionFailed => "解密失败"@,
        CryptoError::EncodingFailed => "编码失败"@,
        CryptoError::InvalidDataFormat => "数据格式错误"@,
    }
}

fn joined(prefix: &str, msg: &str) -> (r: String)
    ensures
        r@ == prefix@ + msg@,
{
    let mut v = to_chars(prefix);
    push_str(&mut v, &to_chars(msg));
    string_from_chars(&v)
}

impl From<CryptoError> for SyncError {
    fn from(e: CryptoError) -> (r: Self) {
        SyncError::CryptoError(e)
    }
}

impl vstd::std_specs::convert::FromSpecImpl<CryptoError> for SyncError {
    open spec fn obeys_from_spec() -> bool {
        true
    }

    open spec fn from_spec(e: CryptoError) -> SyncError {
        SyncError::CryptoError(e)
    }
}

/// Most operation queues kept at once.
pub open spec fn max_operation_queues() -> nat {
    64
}

/// Milliseconds since the Unix epoch (0 when the clock is before it).
#[verifier::external_body]
fn unix_now_millis() -> (r: i64)
    ensures
        r >= 0,
{
    std::time::SystemTime::now().duration_since(std::time::UNIX_EPOCH).map(
        |d| d.as_millis() as i64,
    ).unwrap_or(0)
}

/// The key-verification settings the cloud keeps for a user.
#[derive(Debug)]
pub struct CloudUserConfig {
    pub user_id: String,
    /// Verification data of the master key.
    pub key_verification: String,
    pub key_version: u32,
    /// Milliseconds since the epoch.
    pub updated_at: i64,
}

/// Lower-case hexadecimal digit of a value below 16.
pub open spec fn hex_digit(v: int) -> char {
    if v < 10 {
        ((48 + v) as u8) as char
    } else {
        ((87 + v) as u8) as char
    }
}

/// Lower-case hexadecimal text of `bytes`, two digits a byte.
pub open spec fn hex_lower(bytes: Seq<u8>) -> Seq<char>
    decreases bytes.len(),
{
    if bytes.len() == 0 {
        Seq::empty()
    } else {
        hex_lower(bytes.drop_last()) + seq![
            hex_digit(bytes.last() as int / 16),
            hex_digit(bytes.last() as int % 16),
        ]
    }
}

fn hex_digit_exec(v: u8) -> (r: char)
    requires
        v < 16,
    ensures
        r == hex_digit(v as int),
{
    if v < 10 {
        (48 + v) as char
    } else {
        (87 + v) as char
    }
}

/// Lower-case hexadecimal text of `bytes`.
pub fn to_hex(bytes: &[u8]) -> (r: String)
    ensures
        r@ == hex_lower(bytes@),
{
    let mut out: Vec<char> = Vec::new();
    let mut i: usize = 0;
    while i < bytes.len()
        invariant
            i <= bytes@.len(),
            out@ == hex_lower(bytes@.take(i as int)),
        decreases bytes@.len() - i,
    {
        let b = bytes[i];
        out.push(hex_digit_exec(b / 16));
        out.push(hex_digit_exec(b % 16));
        proof {
            assert(bytes@.take(i + 1).drop_last() =~= bytes@.take(i as int));
            assert(bytes@.take(i + 1).last() == b);
        }
        i = i + 1;
    }
    proof {
        assert(bytes@.take(bytes@.len() as int) =~= bytes@);
    }
    string_from_chars(&out)
}

/// SHA-256 checksum of a record's plain text, in lower-case hexadecimal.
pub fn calculate_blob_checksum(plaintext: &str) -> (r: String)
    ensures
        r@ == hex_lower(sha256_of(encode_utf8(plaintext@))),
{
    let bytes = str_bytes(plaintext);
    let digest = sha256_digest(bytes.as_slice());
    to_hex(digest.as_slice())
}

/// Whether no two queues have the same key.
pub open spec fn keys_distinct(qs: Seq<(String, OperationQueue)>) -> bool {
    forall|i: int, j: int| 0 <= i < j < qs.len() ==> qs[i].0@ != qs[j].0@
}

/// Index of the queue with key `k`, searching from `from`.
pub open spec fn find_key(qs: Seq<(String, OperationQueue)>, k: Seq<char>, from: int) -> Option<int>
    decreases qs.len() - from,
{
    if from < 0 || from >= qs.len() {
        None
    } else if qs[from].0@ == k {
        Some(from)
    } else {
        find_key(qs, k, from + 1)
    }
}

proof fn lemma_find_key(qs: Seq<(String, OperationQueue)>, k: Seq<char>, from: int)
    requires
        from >= 0,
    ensures
        find_key(qs, k, from) matches Some(i) ==> from <= i < qs.len() && qs[i].0@ == k,
        find_key(qs, k, from) is None ==> forall|j: int| from <= j < qs.len() ==> qs[j].0@ != k,
    decreases qs.len() - from,
{
    if from < qs.len() && qs[from].0@ != k {
        lemma_find_key(qs, k, from + 1);
    }
}

/// The state of cloud sync for the signed-in user.
#[derive(Debug)]
pub struct CloudSyncService {
    master_key: Option<String>,
    key_version: u32,
    logged_in: bool,
    user_id: Option<String>,
    operation_queues: Vec<(String, OperationQueue)>,
}

impl CloudSyncService {
    /// The master key entered, if any.
    pub closed spec fn master_key_view(&self) -> Option<Seq<char>> {
        opt_view(self.master_key)
    }

    /// The key version in use.
    pub closed spec fn key_version_view(&self) -> u32 {
        self.key_version
    }

    /// Whether a user is signed in.
    pub closed spec fn logged_in_view(&self) -> bool {
        self.logged_in
    }

    /// The signed-in user's id.
    pub closed spec fn user_id_view(&self) -> Option<Seq<char>> {
        opt_view(self.user_id)
    }

    /// The operation queues by key, oldest first.
    pub closed spec fn queues_view(&self) -> Seq<(String, OperationQueue)> {
        self.operation_queues@
    }

    /// At most one queue per key, and at most 64 queues.
    pub open spec fn wf(&self) -> bool {
        keys_distinct(self.queues_view()) && self.queues_view().len() <= max_operation_queues()
    }

    /// A service with nobody signed in, no key and no queue.
    pub fn new() -> (r: Self)
        ensures
            r.wf(),
            r.master_key_view() is None,
            r.key_version_view() == 0,
            !r.logged_in_view(),
            r.user_id_view() is None,
            r.queues_view().len() == 0,
    {
        CloudSyncService {
            master_key: None,
            key_version: 0,
            logged_in: false,
            user_id: None,
            operation_queues: Vec::new(),
        }
    }

    /// Whether the master key was entered.
    pub fn is_unlocked(&self) -> (r: bool)
        ensures
            r == self.master_key_view() is Some,
    {
        self.master_key.is_some()
    }

    /// The key version in use.
    pub fn key_version(&self) -> (r: u32)
        ensures
            r == self.key_version_view(),
    {
        self.key_version
    }

    /// Records that `user_id` signed in.
    pub fn set_logged_in(&mut self, user_id: String)
        ensures
            final(self).logged_in_view(),
            final(self).user_id_view() == Some(user_id@),
            final(self).master_key_view() == old(self).master_key_view(),
            final(self).key_version_view() == old(self).key_version_view(),
            final(self).queues_view() == old(self).queues_view(),
    {
        self.logged_in = true;
        self.user_id = Some(user_id);
    }

    /// Signs out: forgets the user, the key and every queue.
    pub fn logout(&mut self)
        ensures
            final(self).wf(),
            !final(self).logged_in_view(),
            final(self).user_id_view() is None,
            final(self).master_key_view() is None,
            final(self).key_version_view() == 0,
            final(self).queues_view().len() == 0,
    {
        self.logged_in = false;
        self.user_id = None;
        self.master_key = None;
        self.key_version = 0;
        self.operation_queues = Vec::new();
    }

    fn find_queue(&self, key: &str) -> (r: Option<usize>)
        ensures
            match r {
                Some(i) => find_key(self.queues_view(), key@, 0) == Some(i as int),
                None => find_key(self.queues_view(), key@, 0) is None,
            },
    {
        let mut i: usize = 0;
        while i < self.operation_queues.len()
            invariant
                i <= self.operation_queues@.len(),
                find_key(self.operation_queues@, key@, 0) == find_key(
                    self.operation_queues@,
                    key@,
                    i as int,
                ),
            decreases self.operation_queues@.len() - i,
        {
            if str_eq(self.operation_queues[i].0.as_str(), key) {
                return Some(i);
            }
            i = i + 1;
        }
        None
    }

    /// Takes the queue kept under `key` out of the service, or an empty one.
    pub fn take_operation_queue(&mut self, key: &str) -> (r: OperationQueue)
        requires
            old(self).wf(),
        ensures
            final(self).wf(),
            match find_key(old(self).queues_view(), key@, 0) {
                Some(i) => r == old(self).queues_view()[i].1 && final(self).queues_view()
                    == old(self).queues_view().remove(i),
                None => r.pending_view().len() == 0 && r.failed_view().len() == 0
                    && r.max_retries_view() == 3 && final(self).queues_view() == old(
                    self,
                ).queues_view(),
            },
            final(self).master_key_view() == old(self).master_key_view(),
    {
        proof {
            lemma_find_key(self.operation_queues@, key@, 0);
        }
        match self.find_queue(key) {
            Some(i) => {
                let (_, q) = self.operation_queues.remove(i);
                proof {
                    assert forall|a: int, b: int|
                        0 <= a < b < self.operation_queues@.len() implies self.operation_queues@[a].0@
                        != self.operation_queues@[b].0@ by {
                        let ghost o = old(self).operation_queues@;
                        if a < i && b < i {
                            assert(o[a].0@ != o[b].0@);
                        } else if a < i {
                            assert(o[a].0@ != o[b + 1].0@);
                        } else {
                            assert(o[a + 1].0@ != o[b + 1].0@);
                        }
                    }
                }
                q
            },
            None => OperationQueue::default(),
        }
    }

    /// Keeps `queue` under `key`: an empty queue removes the key; a new key
    /// when 64 queues are kept first drops the oldest queue; an existing key
    /// has its queue replaced in place.
    pub fn store_operation_queue(&mut self, key: &str, queue: OperationQueue)
        requires
            old(self).wf(),
        ensures
            final(self).wf(),
            final(self).master_key_view() == old(self).master_key_view(),
            ({
                let qs = old(self).queues_view();
                let empty = queue.pending_view().len() == 0 && queue.failed_view().len() == 0;
                match find_key(qs, key@, 0) {
                    Some(i) => if empty {
                        final(self).queues_view() == qs.remove(i)
                    } else {
                        final(self).queues_view().len() == qs.len() && final(self).queues_view()[i].0@
                            == key@ && final(self).queues_view()[i].1 == queue && forall|j: int|
                            0 <= j < qs.len() && j != i ==> final(self).queues_view()[j] == qs[j]
                    },
                    None => if empty {
                        final(self).queues_view() == qs
                    } else if qs.len() >= max_operation_queues() {
                        final(self).queues_view().len() == qs.len() && final(self).queues_view().drop_last()
                            == qs.drop_first() && final(self).queues_view().last().0@ == key@
                            && final(self).queues_view().last().1 == queue
                    } else {
                        final(self).queues_view().len() == qs.len() + 1 && final(self).queues_view().drop_last()
                            == qs && final(self).queues_view().last().0@ == key@
                            && final(self).queues_view().last().1 == queue
                    },
                }
            }),
    {
        proof {
            lemma_find_key(self.operation_queues@, key@, 0);
        }
        let ghost o = self.operation_queues@;
        let found = self.find_queue(key);
        if queue.is_empty() {
            if let Some(i) = found {
                self.operation_queues.remove(i);
                proof {
                    assert forall|a: int, b: int|
                        0 <= a < b < self.operation_queues@.len() implies self.operation_queues@[a].0@
                        != self.operation_queues@[b].0@ by {
                        if a < i && b < i {
                            assert(o[a].0@ != o[b].0@);
                        } else if a < i {
                            assert(o[a].0@ != o[b + 1].0@);
                        } else {
                            assert(o[a + 1].0@ != o[b + 1].0@);
                        }
                    }
                }
            }
            return;
        }
        match found {
            Some(i) => {
                self.operation_queues.set(i, (String::from_str(key), queue));
                proof {
                    assert forall|a: int, b: int|
                        0 <= a < b < self.operation_queues@.len() implies self.operation_queues@[a].0@
                        != self.operation_queues@[b].0@ by {
                        assert(o[a].0@ != o[b].0@);
                    }
                }
            },
            None => {
                if self.operation_queues.len() >= 64 {
                    self.operation_queues.remove(0);
                    proof {
                        assert(self.operation_queues@ =~= o.drop_first());
                    }
                }
                let ghost mid = self.operation_queues@;
                self.operation_queues.push((String::from_str(key), queue));
                proof {
                    assert(self.operation_queues@.drop_last() =~= mid);
                    assert forall|a: int, b: int|
                        0 <= a < b < self.operation_queues@.len() implies self.operation_queues@[a].0@
                        != self.operation_queues@[b].0@ by {
                        if b == self.operation_queues@.len() - 1 {
                            if o.len() >= 64 {
                                assert(self.operation_queues@[a] == o[a + 1]);
                            } else {
                                assert(self.operation_queues@[a] == o[a]);
                            }
                        } else if o.len() >= 64 {
                            assert(o[a + 1].0@ != o[b + 1].0@);
                        } else {
                            assert(o[a].0@ != o[b].0@);
                        }
                    }
                }
            },
        }
    }

    /// Takes `master_key` as entered, without checking it.
    pub fn set_master_key_directly(&mut self, master_key: String)
        ensures
            final(self).master_key_view() == Some(master_key@),
            final(self).key_version_view() == old(self).key_version_view(),
            final(self).logged_in_view() == old(self).logged_in_view(),
            final(self).user_id_view() == old(self).user_id_view(),
            final(self).queues_view() == old(self).queues_view(),
    {
        self.master_key = Some(master_key);
    }

    /// Unlocks with `master_key` where it opens the cloud's verification
    /// data, taking the cloud's key version; refused otherwise, nothing changed.
    pub fn unlock(&mut self, master_key: &str, cloud_config: &CloudUserConfig) -> (r: Result<(), SyncError>)
        ensures
            verify_outcome(master_key@, cloud_config.key_verification@) ==> r is Ok
                && final(self).master_key_view() == Some(master_key@)
                && final(self).key_version_view() == cloud_config.key_version,
            !verify_outcome(master_key@, cloud_config.key_verification@) ==> (r matches Err(
                SyncError::InvalidMasterKey,
            ) && *final(self) == *old(self)),
            final(self).logged_in_view() == old(self).logged_in_view(),
            final(self).user_id_view() == old(self).user_id_view(),
            final(self).queues_view() == old(self).queues_view(),
    {
        if !verify_master_key(master_key, cloud_config.key_verification.as_str()) {
            return Err(SyncError::InvalidMasterKey);
        }
        self.master_key = Some(String::from_str(master_key));
        self.key_version = cloud_config.key_version;
        Ok(())
    }

    /// Sets the master key for the first time at `now_ms`: refused where
    /// nobody is signed in; otherwise key version 1 and the settings to
    /// upload, with fresh verification data in the oldest format.
    pub fn setup_master_key_at(&mut self, master_key: &str, now_ms: i64) -> (r: Result<
        CloudUserConfig,
        SyncError,
    >)
        ensures
            !old(self).logged_in_view() ==> (r matches Err(SyncError::NotLoggedIn) && *final(self)
                == *old(self)),
            old(self).logged_in_view() ==> (r matches Ok(c) && {
                &&& c.user_id@ == match old(self).user_id_view() {
                    Some(u) => u,
                    None => Seq::<char>::empty(),
                }
                &&& exists|nonce: Seq<u8>|
                    nonce.len() == 12 && c.key_verification@ == verification_v1(master_key@, nonce)
                &&& c.key_version == 1
                &&& c.updated_at == now_ms
                &&& final(self).master_key_view() == Some(master_key@)
                &&& final(self).key_version_view() == 1
            }),
            final(self).logged_in_view() == old(self).logged_in_view(),
            final(self).user_id_view() == old(self).user_id_view(),
            final(self).queues_view() == old(self).queues_view(),
    {
        if !self.logged_in {
            return Err(SyncError::NotLoggedIn);
        }
        let verification = generate_key_verification_v1(master_key);
        let user_id = match &self.user_id {
            Some(u) => u.clone(),
            None => String::new(),
        };
        self.master_key = Some(String::from_str(master_key));
        self.key_version = 1;
        Ok(CloudUserConfig { user_id, key_verification: verification, key_version: 1, updated_at: now_ms })
    }

    /// Sets the master key for the first time now; see `setup_master_key_at`.
    pub fn setup_master_key(&mut self, master_key: &str) -> (r: Result<CloudUserConfig, SyncError>)
        ensures
            !old(self).logged_in_view() ==> r matches Err(SyncError::NotLoggedIn),
            old(self).logged_in_view() ==> (r matches Ok(c) && c.key_version == 1 && c.updated_at
                >= 0 && final(self).master_key_view() == Some(master_key@)),
    {
        let now = unix_now_millis();
        self.setup_master_key_at(master_key, now)
    }

    /// The key to encrypt with: the master key, refused while locked.
    pub fn select_encrypt_key(&self) -> (r: Result<&str, SyncError>)
        ensures
            match self.master_key_view() {
                Some(k) => r matches Ok(s) && s@ == k,
                None => r matches Err(SyncError::NotUnlocked),
            },
    {
        match &self.master_key {
            Some(k) => Ok(k.as_str()),
            None => Err(SyncError::NotUnlocked),
        }
    }

    /// A copy of the key to decrypt with, refused while locked.
    pub fn select_decrypt_key(&self) -> (r: Result<String, SyncError>)
        ensures
            match self.master_key_view() {
                Some(k) => r matches Ok(s) && s@ == k,
                None => r matches Err(SyncError::NotUnlocked),
            },
    {
        match &self.master_key {
            Some(k) => Ok(k.clone()),
            None => Err(SyncError::NotUnlocked),
        }
    }

    /// What decrypting `enc` as a blob gives with this service's key.
    pub open spec fn blob_decryption(&self, enc: Seq<char>) -> Result<Seq<char>, SyncError> {
        match self.master_key_view() {
            None => Err(SyncError::NotUnlocked),
            Some(k) => match decrypt_outcome(enc, k) {
                Ok(p) => Ok(p),
                Err(e) => Err(SyncError::CryptoError(e)),
            },
        }
    }

    /// Encrypts a record's plain text with the master key, refused while
    /// locked. What it returns decrypts back to `plaintext` with `decrypt_blob`.
    pub fn encrypt_blob(&self, plaintext: &str) -> (r: Result<String, SyncError>)
        ensures
            match self.master_key_view() {
                None => r matches Err(SyncError::NotUnlocked),
                Some(k) => r matches Ok(s) && encrypted_from(s@, plaintext@, k),
            },
            r is Ok && !is_encrypted_spec(plaintext@) ==> self.blob_decryption(r->Ok_0@) == Ok::<
                Seq<char>,
                SyncError,
            >(plaintext@),
    {
        let key = match self.select_encrypt_key() {
            Ok(k) => k,
            Err(e) => return Err(e),
        };
        Ok(encrypt_with_key(plaintext, key))
    }

    /// Decrypts a blob with the master key; see `blob_decryption`.
    pub fn decrypt_blob(&self, encrypted: &str) -> (r: Result<String, SyncError>)
        ensures
            match r {
                Ok(s) => self.blob_decryption(encrypted@) == Ok::<Seq<char>, SyncError>(s@),
                Err(e) => self.blob_decryption(encrypted@) == Err::<Seq<char>, SyncError>(e),
            },
    {
        let key = match self.select_encrypt_key() {
            Ok(k) => k,
            Err(e) => return Err(e),
        };
        match decrypt_with_key(encrypted, key) {
            Ok(s) => Ok(s),
            Err(e) => Err(SyncError::CryptoError(e)),
        }
    }

    /// Encrypts a certificate's parameters (JSON text) for upload with the
    /// master key, refused while locked.
    pub fn encrypt_params(&self, params_json: &str) -> (r: Result<String, SyncError>)
        ensures
            match self.master_key_view() {
                None => r matches Err(SyncError::NotUnlocked),
                Some(k) => r matches Ok(s) && encrypted_from(s@, params_json@, k),
            },
    {
        let key = match self.select_encrypt_key() {
            Ok(k) => k,
            Err(e) => return Err(e),
        };
        Ok(encrypt_with_key(params_json, key))
    }

    /// Decrypts a downloaded certificate's parameters with the master key;
    /// a failure to decrypt is a data format error carrying the crypto
    /// error's message.
    pub fn decrypt_params(&self, encrypted: &str) -> (r: Result<String, SyncError>)
        ensures
            match self.master_key_view() {
                None => r matches Err(SyncError::NotUnlocked),
                Some(k) => match decrypt_outcome(encrypted@, k) {
                    Ok(p) => r matches Ok(s) && s@ == p,
                    Err(e) => r matches Err(SyncError::DataFormatError(m)) && m@ == crypto_message(
                        e,
                    ),
                },
            },
    {
        let key = match self.select_decrypt_key() {
            Ok(k) => k,
            Err(e) => return Err(e),
        };
        match decrypt_with_key(encrypted, key.as_str()) {
            Ok(s) => Ok(s),
            Err(e) => Err(SyncError::DataFormatError(e.message())),
        }
    }

    /// Seals a record for upload at `now_ms`: its checksum over the plain
    /// text, the plain text encrypted, the key version, the signed-in
    /// user as owner (empty where none), version 1 and no deletion.
    pub fn seal_sync_data_at(
        &self,
        plaintext: &str,
        id: String,
        data_type: &str,
        name: &str,
        now_ms: i64,
    ) -> (r: Result<CloudSyncData, SyncError>)
        ensures
            self.master_key_view() is None ==> r matches Err(SyncError::NotUnlocked),
            self.master_key_view() matches Some(k) ==> (r matches Ok(d) && {
                &&& d.id@ == id@
                &&& d.owner_id@ == match self.user_id_view() {
                    Some(u) => u,
                    None => Seq::<char>::empty(),
                }
                &&& d.data_type@ == data_type@
                &&& d.name@ == name@
                &&& encrypted_from(d.encrypted_data@, plaintext@, k)
                &&& d.key_version == self.key_version_view()
                &&& d.checksum@ == hex_lower(sha256_of(encode_utf8(plaintext@)))
                &&& d.version == 1
                &&& d.updated_at == now_ms
                &&& d.deleted_at is None
            }),
    {
        let checksum = calculate_blob_checksum(plaintext);
        let encrypted_data = match self.encrypt_blob(plaintext) {
            Ok(e) => e,
            Err(e) => return Err(e),
        };
        let owner_id = match &self.user_id {
            Some(u) => u.clone(),
            None => String::new(),
        };
        Ok(CloudSyncData {
            id,
            owner_id,
            data_type: String::from_str(data_type),
            name: String::from_str(name),
            encrypted_data,
            key_version: self.key_version,
            checksum,
            version: 1,
            updated_at: now_ms,
            deleted_at: None,
        })
    }

    /// Seals a record for upload now; see `seal_sync_data_at`.
    pub fn seal_sync_data(&self, plaintext: &str, id: String, data_type: &str, name: &str) -> (r:
        Result<CloudSyncData, SyncError>)
        ensures
            self.master_key_view() is None ==> r matches Err(SyncError::NotUnlocked),
            self.master_key_view() matches Some(k) ==> (r matches Ok(d) && {
                &&& d.id@ == id@
                &&& d.owner_id@ == match self.user_id_view() {
                    Some(u) => u,
                    None => Seq::<char>::empty(),
                }
                &&& d.data_type@ == data_type@
                &&& d.name@ == name@
                &&& encrypted_from(d.encrypted_data@, plaintext@, k)
                &&& d.key_version == self.key_version_view()
                &&& d.checksum@ == hex_lower(sha256_of(encode_utf8(plaintext@)))
                &&& d.version == 1
                &&& d.updated_at >= 0
                &&& d.deleted_at is None
            }),
    {
        let now = unix_now_millis();
        self.seal_sync_data_at(plaintext, id, data_type, name, now)
    }

    /// Seals a record for upload now under the cloud id it already has, or
    /// under a new random UUID where it has none; see `seal_sync_data_at`.
    pub fn seal_new_sync_data(
        &self,
        plaintext: &str,
        cloud_id: Option<String>,
        data_type: &str,
        name: &str,
    ) -> (r: Result<CloudSyncData, SyncError>)
        ensures
            self.master_key_view() is None ==> r matches Err(SyncError::NotUnlocked),
            self.master_key_view() matches Some(k) ==> (r matches Ok(d) && {
                &&& match cloud_id {
                    Some(c) => d.id@ == c@,
                    None => is_uuid_v4_text(d.id@),
                }
                &&& d.owner_id@ == match self.user_id_view() {
                    Some(u) => u,
                    None => Seq::<char>::empty(),
                }
                &&& d.data_type@ == data_type@
                &&& d.name@ == name@
                &&& encrypted_from(d.encrypted_data@, plaintext@, k)
                &&& d.key_version == self.key_version_view()
                &&& d.checksum@ == hex_lower(sha256_of(encode_utf8(plaintext@)))
                &&& d.version == 1
                &&& d.updated_at >= 0
                &&& d.deleted_at is None
            }),
    {
        let id = match cloud_id {
            Some(c) => c,
            None => new_uuid_v4(),
        };
        self.seal_sync_data(plaintext, id, data_type, name)
    }
}

/// Whether `c` is a lowercase hexadecimal digit.
pub open spec fn is_lower_hex(c: char) -> bool {
    ('0' <= c && c <= '9') || ('a' <= c && c <= 'f')
}

/// `s` is a random UUID as written by `Uuid::new_v4().to_string()`: 36
/// characters, hyphens at 8, 13, 18 and 23 and lowercase hexadecimal digits
/// elsewhere, the version digit `4` at 14 and a variant digit `8`, `9`, `a`
/// or `b` at 19.
pub open spec fn is_uuid_v4_text(s: Seq<char>) -> bool {
    &&& s.len() == 36
    &&& forall|i: int|
        #![trigger s[i]]
        0 <= i < 36 ==> if i == 8 || i == 13 || i == 18 || i == 23 {
            s[i] == '-'
        } else {
            is_lower_hex(s[i])
        }
    &&& s[14] == '4'
    &&& (s[19] == '8' || s[19] == '9' || s[19] == 'a' || s[19] == 'b')
}

/// A new random UUID (`uuid::Uuid::new_v4`) in its hyphenated lowercase
/// text form. The crate masks random bits so that the version digit is 4
/// and the variant is RFC 4122; which UUID comes is left open.
#[verifier::external_body]
fn new_uuid_v4() -> (r: String)
    ensures
        is_uuid_v4_text(r@),
{
    uuid::Uuid::new_v4().to_string()
}

/// What to do next when the cloud's key settings have been fetched.
#[derive(Debug)]
pub enum KeyConfigStep {
    /// The service is unlocked; nothing more to do.
    Ready,
    /// The master key does not open the cloud's verification data: whether
    /// the account holds sync data decides (see `resolve_key_mismatch`).
    CheckCloudItems,
    /// New settings were made; upload them.
    Upload(CloudUserConfig),
    /// The step failed.
    Failed(SyncError),
}

/// The message of a master key that differs from the cloud's.
pub open spec fn mismatch_message() -> Seq<char> {
    "云端同步密钥与当前本地主密钥不一致，请使用原主密钥解锁，或清空该账号的云端同步数据后重试"@
}

impl CloudSyncService {
    /// Takes the master key held locally (`local_key`, where the local
    /// store is unlocked) when the service is still locked; refused where
    /// the service stays locked.
    pub fn ensure_unlocked(&mut self, local_key: Option<String>) -> (r: Result<(), SyncError>)
        ensures
            final(self).master_key_view() == match old(self).master_key_view() {
                Some(k) => Some(k),
                None => match local_key {
                    Some(k) => Some(k@),
                    None => None,
                },
            },
            r is Ok <==> final(self).master_key_view() is Some,
            r is Err ==> r matches Err(SyncError::NotUnlocked),
            final(self).key_version_view() == old(self).key_version_view(),
            final(self).queues_view() == old(self).queues_view(),
    {
        if let Some(k) = local_key {
            if !self.is_unlocked() {
                self.set_master_key_directly(k);
            }
        }
        if !self.is_unlocked() {
            return Err(SyncError::NotUnlocked);
        }
        Ok(())
    }

    /// The first step of setting up the personal key with the cloud's
    /// settings `cloud_config` (`None` where the cloud has none), at
    /// `now_ms`: existing settings unlock the service when the key opens
    /// them, else the cloud's items must be checked; missing settings are
    /// made (unless a key version is already in use) and must be uploaded.
    pub fn apply_cloud_key_config_at(
        &mut self,
        raw_key: &str,
        cloud_config: Option<&CloudUserConfig>,
        now_ms: i64,
    ) -> (r: KeyConfigStep)
        ensures
            cloud_config is Some ==> if verify_outcome(raw_key@, cloud_config->0.key_verification@) {
                r is Ready && final(self).master_key_view() == Some(raw_key@)
                    && final(self).key_version_view() == cloud_config->0.key_version
            } else {
                r is CheckCloudItems && *final(self) == *old(self)
            },
            cloud_config is None && old(self).key_version_view() >= 1 ==> (r is Ready && *final(self)
                == *old(self)),
            cloud_config is None && old(self).key_version_view() < 1 && !old(self).logged_in_view()
                ==> r matches KeyConfigStep::Failed(SyncError::NotLoggedIn),
            cloud_config is None && old(self).key_version_view() < 1 && old(self).logged_in_view()
                ==> (r matches KeyConfigStep::Upload(c) && c.key_version == 1 && c.updated_at
                == now_ms && final(self).master_key_view() == Some(raw_key@)),
    {
        match cloud_config {
            Some(c) => match self.unlock(raw_key, c) {
                Ok(()) => KeyConfigStep::Ready,
                Err(_) => KeyConfigStep::CheckCloudItems,
            },
            None => {
                if self.key_version >= 1 {
                    return KeyConfigStep::Ready;
                }
                match self.setup_master_key_at(raw_key, now_ms) {
                    Ok(c) => KeyConfigStep::Upload(c),
                    Err(e) => KeyConfigStep::Failed(e),
                }
            },
        }
    }

    /// The second step where the key does not open the cloud's settings:
    /// an account without sync data gets new settings made from the key
    /// (to upload); otherwise the key is refused.
    pub fn resolve_key_mismatch_at(&mut self, raw_key: &str, cloud_is_empty: bool, now_ms: i64) -> (r:
        Result<CloudUserConfig, SyncError>)
        ensures
            !cloud_is_empty ==> (r matches Err(SyncError::CloudMasterKeyMismatch(m)) && m@
                == mismatch_message() && *final(self) == *old(self)),
            cloud_is_empty && !old(self).logged_in_view() ==> r matches Err(SyncError::NotLoggedIn),
            cloud_is_empty && old(self).logged_in_view() ==> (r matches Ok(c) && c.key_version == 1
                && c.updated_at == now_ms && final(self).master_key_view() == Some(raw_key@)),
    {
        if !cloud_is_empty {
            return Err(
                SyncError::CloudMasterKeyMismatch(
                    String::from_str(
                        "云端同步密钥与当前本地主密钥不一致，请使用原主密钥解锁，或清空该账号的云端同步数据后重试",
                    ),
                ),
            );
        }
        self.setup_master_key_at(raw_key, now_ms)
    }
}

/// Which way a blob sync goes.
#[derive(Debug, Clone, Copy, PartialEq, Eq, Structural)]
pub enum BlobSyncDirection {
    /// Apply the cloud's bundle locally.
    Download,
    /// Upload the local bundle.
    Upload,
}

/// The direction of a blob sync: the cloud's bundle wins where it exists
/// with a positive timestamp no older than the local one.
pub fn blob_sync_direction(cloud_timestamp: Option<i64>, local_timestamp: i64) -> (r: BlobSyncDirection)
    ensures
        r == if (match cloud_timestamp {
            Some(t) => t > 0 && t >= local_timestamp,
            None => false,
        }) {
            BlobSyncDirection::Download
        } else {
            BlobSyncDirection::Upload
        },
{
    let cloud_ts = match cloud_timestamp {
        Some(t) => t,
        None => 0,
    };
    if cloud_ts > 0 && cloud_ts >= local_timestamp {
        BlobSyncDirection::Download
    } else {
        BlobSyncDirection::Upload
    }
}

/// Milliseconds since the Unix epoch.
pub fn current_timestamp() -> (r: i64)
    ensures
        r >= 0,
{
    unix_now_millis()
}

impl Default for CloudSyncService {
    fn default() -> (r: Self)
        ensures
            r.wf(),
            r.master_key_view() is None,
            !r.logged_in_view(),
            r.queues_view().len() == 0,
    {
        Self::new()
    }
}

/// The local workspace a cloud record decrypts to: unsaved, linked to the
/// record, synced and updated at the record's time in seconds.
pub fn workspace_from_cloud(
    name: String,
    sort_order: Option<i32>,
    color: Option<String>,
    icon: Option<String>,
    cloud: &CloudSyncData,
) -> (r: Workspace)
    ensures
        r.id is None,
        r.name == name,
        r.sort_order == sort_order,
        r.color == color,
        r.icon == icon,
        r.created_at is None,
        r.updated_at == Some(millis_to_secs(cloud.updated_at) as i64),
        r.cloud_id == Some(cloud.id),
        r.last_synced_at == Some(millis_to_secs(cloud.updated_at) as i64),
{
    let secs = secs_of_millis(cloud.updated_at);
    Workspace {
        id: None,
        name,
        sort_order,
        color,
        icon,
        created_at: None,
        updated_at: Some(secs),
        cloud_id: Some(cloud.id.clone()),
        last_synced_at: Some(secs),
    }
}

/// The local connection a cloud record decrypts to: unsaved, in no
/// workspace yet, sync enabled, linked to the record, synced and updated
/// at the record's time in seconds.
pub fn connection_from_cloud(
    name: String,
    connection_type: ConnectionType,
    sort_order: Option<i32>,
    params: String,
    selected_databases: Option<String>,
    remark: Option<String>,
    owner_id: Option<String>,
    cloud: &CloudSyncData,
) -> (r: StoredConnection)
    ensures
        r.id is None,
        r.name == name,
        r.connection_type == connection_type,
        r.sort_order == sort_order,
        r.workspace_id is None,
        r.params == params,
        r.selected_databases == selected_databases,
        r.remark == remark,
        r.sync_enabled,
        r.cloud_id == Some(cloud.id),
        r.last_synced_at == Some(millis_to_secs(cloud.updated_at) as i64),
        r.created_at is None,
        r.updated_at == Some(millis_to_secs(cloud.updated_at) as i64),
        r.owner_id == owner_id,
{
    let secs = secs_of_millis(cloud.updated_at);
    StoredConnection {
        id: None,
        name,
        connection_type,
        sort_order,
        workspace_id: None,
        params,
        selected_databases,
        remark,
        sync_enabled: true,
        cloud_id: Some(cloud.id.clone()),
        last_synced_at: Some(secs),
        created_at: None,
        updated_at: Some(secs),
        owner_id,
    }
}

/// The local certificate a cloud record decrypts to: unsaved, sync
/// enabled, linked to the record, synced and updated at the record's time
/// in seconds.
pub fn certificate_from_cloud(
    name: String,
    kind: CertificateKind,
    params: String,
    remark: Option<String>,
    owner_id: Option<String>,
    cloud: &CloudSyncData,
) -> (r: Certificate)
    ensures
        r.id is None,
        r.name == name,
        r.kind == kind,
        r.params == params,
        r.remark == remark,
        r.sync_enabled,
        r.cloud_id == Some(cloud.id),
        r.last_synced_at == Some(millis_to_secs(cloud.updated_at) as i64),
        r.created_at is None,
        r.updated_at == Some(millis_to_secs(cloud.updated_at) as i64),
        r.owner_id == owner_id,
{
    let secs = secs_of_millis(cloud.updated_at);
    Certificate {
        id: None,
        name,
        kind,
        params,
        remark,
        sync_enabled: true,
        cloud_id: Some(cloud.id.clone()),
        last_synced_at: Some(secs),
        created_at: None,
        updated_at: Some(secs),
        owner_id,
    }
}

/// The local LLM provider a cloud record decrypts to: not yet saved (id 0),
/// of the kind read from the record (OpenAI where it names none known),
/// sync enabled, linked to the record, created, updated and synced at the
/// record's time in seconds.
pub fn provider_from_cloud(
    name: String,
    provider_type: Option<ProviderType>,
    api_key: String,
    api_base: Option<String>,
    api_version: Option<String>,
    model: String,
    max_tokens: Option<u32>,
    thinking_budget: Option<u32>,
    enabled: bool,
    is_default: bool,
    cloud: &CloudSyncData,
) -> (r: ProviderConfig)
    ensures
        r.id == 0,
        r.name == name,
        r.provider_type == match provider_type {
            Some(t) => t,
            None => ProviderType::OpenAI,
        },
        r.api_key == api_key,
        r.api_base == api_base,
        r.api_version == api_version,
        r.model == model,
        r.max_tokens == max_tokens,
        r.thinking_budget == thinking_budget,
        r.enabled == enabled,
        r.is_default == is_default,
        r.cloud_id == Some(cloud.id),
        r.last_synced_at == Some(millis_to_secs(cloud.updated_at) as i64),
        r.sync_enabled,
        r.created_at == millis_to_secs(cloud.updated_at),
        r.updated_at == millis_to_secs(cloud.updated_at),
{
    let secs = secs_of_millis(cloud.updated_at);
    ProviderConfig {
        id: 0,
        name,
        provider_type: match provider_type {
            Some(t) => t,
            None => ProviderType::OpenAI,
        },
        api_key,
        api_base,
        api_version,
        model,
        max_tokens,
        thinking_budget,
        enabled,
        is_default,
        cloud_id: Some(cloud.id.clone()),
        last_synced_at: Some(secs),
        sync_enabled: true,
        created_at: secs,
        updated_at: secs,
    }
}

} // verus!
