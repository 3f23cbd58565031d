//! The certificate editor's form: which inputs make a certificate, and how
//! the certificate's parameters are written from them.
use crate::models::{clone_opt_string, opt_view, Certificate, CertificateKind};
use crate::text::{string_from_chars, to_chars, trim, trim_chars};
use vstd::prelude::*;

verus! {

/// What `params` becomes with the JSON string `value` stored under `key`
/// (serde_json's `Map::insert`), where `params` parses as a JSON object;
/// `params` itself otherwise.
pub uninterp spec fn json_with_string(params: Seq<char>, key: Seq<char>, value: Seq<char>) -> Seq<
    char,
>;

/// What `params` becomes without the entry `key` (serde_json's
/// `Map::remove`), where `params` parses as a JSON object; `params` itself
/// otherwise.
pub uninterp spec fn json_without_key(params: Seq<char>, key: Seq<char>) -> Seq<char>;

/// Parses `params` with serde_json and, where it is an object, stores the
/// string `value` under `key` and writes the object back.
#[verifier::external_body]
fn json_insert_string(params: &str, key: &str, value: &str) -> (r: String)
    ensures
        r@ == json_with_string(params@, key@, value@),
{
    match serde_json::from_str::<serde_json::Value>(params) {
        Ok(serde_json::Value::Object(mut map)) => {
            map.insert(key.to_string(), serde_json::Value::String(value.to_string()));
            serde_json::Value::Object(map).to_string()
        },
        _ => params.to_string(),
    }
}

/// Parses `params` with serde_json and, where it is an object, removes the
/// entry `key` and writes the object back.
#[verifier::external_body]
fn json_remove_key(params: &str, key: &str) -> (r: String)
    ensures
        r@ == json_without_key(params@, key@),
{
    match serde_json::from_str::<serde_json::Value>(params) {
        Ok(serde_json::Value::Object(mut map)) => {
            map.remove(key);
            serde_json::Value::Object(map).to_string()
        },
        _ => params.to_string(),
    }
}

/// The string serde_json finds under `key` in `params`, where `params`
/// parses as a JSON object holding a string there; `None` otherwise.
pub uninterp spec fn json_string_field(params: Seq<char>, key: Seq<char>) -> Option<Seq<char>>;

/// Reads the string under `key` of the JSON object `params` with serde_json
/// (`Value::get` and `Value::as_str`).
#[verifier::external_body]
fn json_field(params: &str, key: &str) -> (r: Option<String>)
    ensures
        opt_view(r) == json_string_field(params@, key@),
{
    let value: serde_json::Value = serde_json::from_str(params).ok()?;
    value.get(key)?.as_str().map(|s| s.to_string())
}

/// The value an input starts with: the stored text, or nothing.
pub open spec fn prefill(v: Option<Seq<char>>) -> Seq<char> {
    match v {
        Some(t) => t,
        None => Seq::empty(),
    }
}

/// A text input's value trimmed, where it holds more than whitespace.
pub open spec fn trimmed_input(s: Seq<char>) -> Option<Seq<char>> {
    if trim(s).len() == 0 {
        None
    } else {
        Some(trim(s))
    }
}

/// A secret input's value as typed, where it holds more than whitespace.
pub open spec fn secret_input(s: Seq<char>) -> Option<Seq<char>> {
    if trim(s).len() == 0 {
        None
    } else {
        Some(s)
    }
}

/// `params` with `key` set to `value`, or without `key` where there is no value.
pub open spec fn set_or_remove(params: Seq<char>, key: Seq<char>, value: Option<Seq<char>>) -> Seq<
    char,
> {
    match value {
        Some(v) => json_with_string(params, key, v),
        None => json_without_key(params, key),
    }
}

/// `params` with `key` set to `value` where there is one.
pub open spec fn set_if_some(params: Seq<char>, key: Seq<char>, value: Option<Seq<char>>) -> Seq<
    char,
> {
    match value {
        Some(v) => json_with_string(params, key, v),
        None => params,
    }
}

/// The parameters of a new certificate: the user name, and the password
/// or the key path and passphrase given, by kind.
pub open spec fn fresh_params(
    kind: CertificateKind,
    username: Seq<char>,
    password: Option<Seq<char>>,
    key_path: Option<Seq<char>>,
    passphrase: Option<Seq<char>>,
) -> Seq<char> {
    let p = json_with_string("{}"@, "username"@, username);
    match kind {
        CertificateKind::UsernamePassword => set_if_some(p, "password"@, password),
        CertificateKind::SshPrivateKey => set_if_some(
            set_if_some(p, "key_path"@, key_path),
            "passphrase"@,
            passphrase,
        ),
    }
}

/// `params` rewritten for the form: the user name set; for a password
/// certificate the password set or removed and the key entries removed; for
/// a key certificate the password removed, the key path set where given and
/// the passphrase set or removed.
pub open spec fn edited_params(
    params: Seq<char>,
    kind: CertificateKind,
    username: Seq<char>,
    password: Option<Seq<char>>,
    key_path: Option<Seq<char>>,
    passphrase: Option<Seq<char>>,
) -> Seq<char> {
    let p = json_with_string(params, "username"@, username);
    match kind {
        CertificateKind::UsernamePassword => json_without_key(
            json_without_key(set_or_remove(p, "password"@, password), "key_path"@),
            "passphrase"@,
        ),
        CertificateKind::SshPrivateKey => set_or_remove(
            set_if_some(json_without_key(p, "password"@), "key_path"@, key_path),
            "passphrase"@,
            passphrase,
        ),
    }
}

/// The certificate editor's inputs, as typed.
#[derive(Debug)]
pub struct CertificateForm {
    /// The certificate being edited; `None` for a new one.
    pub original: Option<Certificate>,
    pub name: String,
    /// The kind selected, if any.
    pub kind: Option<CertificateKind>,
    pub username: String,
    pub password: String,
    pub key_path: String,
    pub passphrase: String,
    pub remark: String,
    pub sync_enabled: bool,
}

/// The kind a selection stands for: a password certificate where nothing
/// is selected.
pub open spec fn kind_of(selected: Option<CertificateKind>) -> CertificateKind {
    match selected {
        Some(k) => k,
        None => CertificateKind::UsernamePassword,
    }
}

/// Whether the form makes a certificate: a name and a user name, and a key
/// path for a key certificate.
pub open spec fn form_complete(f: CertificateForm) -> bool {
    &&& trimmed_input(f.name@) is Some
    &&& trimmed_input(f.username@) is Some
    &&& (kind_of(f.kind) == CertificateKind::SshPrivateKey ==> trimmed_input(f.key_path@) is Some)
}

/// The parameters the form writes: those of the certificate being edited,
/// or fresh ones, rewritten from the inputs.
pub open spec fn form_params(f: CertificateForm) -> Seq<char> {
    let kind = kind_of(f.kind);
    let username = trim(f.username@);
    let password = secret_input(f.password@);
    let key_path = trimmed_input(f.key_path@);
    let passphrase = secret_input(f.passphrase@);
    let base = match f.original {
        Some(c) => c.params@,
        None => fresh_params(kind, username, password, key_path, passphrase),
    };
    edited_params(base, kind, username, password, key_path, passphrase)
}

fn trimmed(s: &String) -> (r: String)
    ensures
        r@ == trim(s@),
{
    string_from_chars(&trim_chars(&to_chars(s.as_str())))
}

fn set_param(params: String, key: &str, value: &Option<String>) -> (r: String)
    ensures
        r@ == set_or_remove(params@, key@, opt_view(*value)),
{
    match value {
        Some(v) => json_insert_string(params.as_str(), key, v.as_str()),
        None => json_remove_key(params.as_str(), key),
    }
}

fn set_param_if_some(params: String, key: &str, value: &Option<String>) -> (r: String)
    ensures
        r@ == set_if_some(params@, key@, opt_view(*value)),
{
    match value {
        Some(v) => json_insert_string(params.as_str(), key, v.as_str()),
        None => params,
    }
}

fn optional_trimmed(s: &String) -> (r: Option<String>)
    ensures
        opt_view(r) == trimmed_input(s@),
{
    let t = trimmed(s);
    if t.as_str().is_empty() {
        None
    } else {
        Some(t)
    }
}

fn optional_secret(s: &String) -> (r: Option<String>)
    ensures
        opt_view(r) == secret_input(s@),
{
    let t = trimmed(s);
    if t.as_str().is_empty() {
        None
    } else {
        Some(s.clone())
    }
}

fn text_or_empty(v: Option<String>) -> (r: String)
    ensures
        r@ == prefill(opt_view(v)),
{
    match v {
        Some(t) => t,
        None => String::new(),
    }
}

impl CertificateForm {
    /// The form for editing `certificate`, or for a new one: each input
    /// starts with the stored value (the name, the user name, password, key
    /// path and passphrase read from the parameters, the remark), the kind
    /// of the certificate is selected (a password certificate for a new
    /// one), and sync is on for a new one.
    pub fn new(certificate: Option<Certificate>) -> (r: Self)
        ensures
            r.original == certificate,
            match certificate {
                Some(c) => {
                    &&& r.name@ == c.name@
                    &&& r.kind == Some(c.kind)
                    &&& r.username@ == prefill(json_string_field(c.params@, "username"@))
                    &&& r.password@ == prefill(json_string_field(c.params@, "password"@))
                    &&& r.key_path@ == prefill(json_string_field(c.params@, "key_path"@))
                    &&& r.passphrase@ == prefill(json_string_field(c.params@, "passphrase"@))
                    &&& r.remark@ == prefill(opt_view(c.remark))
                    &&& r.sync_enabled == c.sync_enabled
                },
                None => {
                    &&& r.name@ == Seq::<char>::empty()
                    &&& r.kind == Some(CertificateKind::UsernamePassword)
                    &&& r.username@ == Seq::<char>::empty()
                    &&& r.password@ == Seq::<char>::empty()
                    &&& r.key_path@ == Seq::<char>::empty()
                    &&& r.passphrase@ == Seq::<char>::empty()
                    &&& r.remark@ == Seq::<char>::empty()
                    &&& r.sync_enabled
                },
            },
    {
        match certificate {
            Some(c) => {
                let name = c.name.clone();
                let username = text_or_empty(json_field(c.params.as_str(), "username"));
                let password = text_or_empty(json_field(c.params.as_str(), "password"));
                let key_path = text_or_empty(json_field(c.params.as_str(), "key_path"));
                let passphrase = text_or_empty(json_field(c.params.as_str(), "passphrase"));
                let remark = text_or_empty(clone_opt_string(&c.remark));
                let kind = Some(c.kind);
                let sync_enabled = c.sync_enabled;
                CertificateForm {
                    original: Some(c),
                    name,
                    kind,
                    username,
                    password,
                    key_path,
                    passphrase,
                    remark,
                    sync_enabled,
                }
            },
            None => CertificateForm {
                original: None,
                name: String::new(),
                kind: Some(CertificateKind::UsernamePassword),
                username: String::new(),
                password: String::new(),
                key_path: String::new(),
                passphrase: String::new(),
                remark: String::new(),
                sync_enabled: true,
            },
        }
    }

    /// The kind selected; a password certificate where nothing is.
    pub fn selected_kind(&self) -> (r: CertificateKind)
        ensures
            r == kind_of(self.kind),
    {
        match self.kind {
            Some(k) => k,
            None => CertificateKind::UsernamePassword,
        }
    }

    /// The certificate the form describes, `None` where it is incomplete
    /// (see `form_complete`). It keeps what the certificate being edited
    /// had and takes the trimmed name, the selected kind, the parameters
    /// of `form_params`, the trimmed remark (`None` where blank) and the
    /// sync switch; a new certificate has no
    /// id, stamps or cloud link, and belongs to `owner_id`.
    pub fn build_certificate(&self, owner_id: Option<String>) -> (r: Option<
        Certificate,
    >)
        ensures
            r is Some <==> form_complete(*self),
            r matches Some(c) ==> {
                &&& c.name@ == trim(self.name@)
                &&& c.kind == kind_of(self.kind)
                &&& c.params@ == form_params(*self)
                &&& opt_view(c.remark) == trimmed_input(self.remark@)
                &&& c.sync_enabled == self.sync_enabled
                &&& match self.original {
                    Some(o) => {
                        &&& c.id == o.id
                        &&& c.cloud_id == o.cloud_id
                        &&& c.last_synced_at == o.last_synced_at
                        &&& c.created_at == o.created_at
                        &&& c.updated_at == o.updated_at
                        &&& c.owner_id == o.owner_id
                    },
                    None => {
                        &&& c.id is None
                        &&& c.cloud_id is None
                        &&& c.last_synced_at is None
                        &&& c.created_at is None
                        &&& c.updated_at is None
                        &&& c.owner_id == owner_id
                    },
                }
            },
    {
        let name = trimmed(&self.name);
        let username = trimmed(&self.username);
        if name.as_str().is_empty() || username.as_str().is_empty() {
            return None;
        }
        let kind = self.selected_kind();
        let password = optional_secret(&self.password);
        let key_path = optional_trimmed(&self.key_path);
        let passphrase = optional_secret(&self.passphrase);
        if kind == CertificateKind::SshPrivateKey && key_path.is_none() {
            return None;
        }
        let remark = optional_trimmed(&self.remark);
        let base = match &self.original {
            Some(o) => o.params.clone(),
            None => {
                let p = json_insert_string("{}", "username", username.as_str());
                match kind {
                    CertificateKind::UsernamePassword => set_param_if_some(p, "password", &password),
                    CertificateKind::SshPrivateKey => {
                        let p = set_param_if_some(p, "key_path", &key_path);
                        set_param_if_some(p, "passphrase", &passphrase)
                    },
                }
            },
        };
        let p = json_insert_string(base.as_str(), "username", username.as_str());
        let params = match kind {
            CertificateKind::UsernamePassword => {
                let p = set_param(p, "password", &password);
                let p = json_remove_key(p.as_str(), "key_path");
                json_remove_key(p.as_str(), "passphrase")
            },
            CertificateKind::SshPrivateKey => {
                let p = json_remove_key(p.as_str(), "password");
                let p = set_param_if_some(p, "key_path", &key_path);
                set_param(p, "passphrase", &passphrase)
            },
        };
        let certificate = match &self.original {
            Some(o) => Certificate {
                id: o.id,
                name,
                kind,
                params,
                remark,
                sync_enabled: self.sync_enabled,
                cloud_id: clone_opt_string(&o.cloud_id),
                last_synced_at: o.last_synced_at,
                created_at: o.created_at,
                updated_at: o.updated_at,
                owner_id: clone_opt_string(&o.owner_id),
            },
            None => Certificate {
                id: None,
                name,
                kind,
                params,
                remark,
                sync_enabled: self.sync_enabled,
                cloud_id: None,
                last_synced_at: None,
                created_at: None,
                updated_at: None,
                owner_id,
            },
        };
        Some(certificate)
    }
}

} // verus!
