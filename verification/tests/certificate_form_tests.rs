use omnihub_core::certificate_form::CertificateForm;
use omnihub_core::models::{Certificate, CertificateKind};

fn form(kind: Option<CertificateKind>) -> CertificateForm {
    CertificateForm {
        original: None,
        name: "  prod db  ".to_string(),
        kind,
        username: " alice ".to_string(),
        password: " s3cret ".to_string(),
        key_path: String::new(),
        passphrase: String::new(),
        remark: "   ".to_string(),
        sync_enabled: true,
    }
}

fn stored(params: &str) -> Certificate {
    Certificate {
        id: Some(7),
        name: "old".to_string(),
        kind: CertificateKind::UsernamePassword,
        params: params.to_string(),
        remark: Some("r".to_string()),
        sync_enabled: true,
        cloud_id: Some("c-1".to_string()),
        last_synced_at: Some(10),
        created_at: Some(1),
        updated_at: Some(2),
        owner_id: Some("u-1".to_string()),
    }
}

#[test]
fn nothing_selected_means_password_kind() {
    assert_eq!(form(None).selected_kind(), CertificateKind::UsernamePassword);
    assert_eq!(form(Some(CertificateKind::SshPrivateKey)).selected_kind(), CertificateKind::SshPrivateKey);
}

#[test]
fn incomplete_forms_make_no_certificate() {
    let mut f = form(None);
    f.name = "  ".to_string();
    assert!(f.build_certificate(None).is_none());

    let mut f = form(None);
    f.username = String::new();
    assert!(f.build_certificate(None).is_none());

    let mut f = form(Some(CertificateKind::SshPrivateKey));
    f.key_path = "   ".to_string();
    assert!(f.build_certificate(None).is_none());
}

#[test]
fn new_password_certificate() {
    let c = form(None).build_certificate(Some("owner".to_string())).unwrap();
    assert_eq!(c.name, "prod db");
    assert_eq!(c.kind, CertificateKind::UsernamePassword);
    assert_eq!(c.params, r#"{"password":" s3cret ","username":"alice"}"#);
    assert!(c.remark.is_none());
    assert!(c.id.is_none());
    assert!(c.cloud_id.is_none());
    assert_eq!(c.owner_id.as_deref(), Some("owner"));
    assert!(c.sync_enabled);
}

#[test]
fn new_key_certificate_without_passphrase() {
    let mut f = form(Some(CertificateKind::SshPrivateKey));
    f.key_path = " ~/.ssh/id_ed25519 ".to_string();
    f.remark = " bastion ".to_string();
    f.sync_enabled = false;
    let c = f.build_certificate(None).unwrap();
    assert_eq!(c.params, r#"{"key_path":"~/.ssh/id_ed25519","username":"alice"}"#);
    assert_eq!(c.remark.as_deref(), Some("bastion"));
    assert!(!c.sync_enabled);
    assert!(c.owner_id.is_none());
}

#[test]
fn editing_switches_kind_and_keeps_other_entries() {
    let mut f = form(Some(CertificateKind::SshPrivateKey));
    f.original = Some(stored(r#"{"extra":1,"password":"old","passphrase":"x","username":"bob"}"#));
    f.key_path = "/keys/id".to_string();
    let c = f.build_certificate(Some("ignored".to_string())).unwrap();
    assert_eq!(c.params, r#"{"extra":1,"key_path":"/keys/id","username":"alice"}"#);
    assert_eq!(c.id, Some(7));
    assert_eq!(c.cloud_id.as_deref(), Some("c-1"));
    assert_eq!(c.owner_id.as_deref(), Some("u-1"));
    assert_eq!(c.created_at, Some(1));
    assert_eq!(c.kind, CertificateKind::SshPrivateKey);
}

#[test]
fn editing_a_password_certificate_drops_key_entries() {
    let mut f = form(None);
    f.password = "   ".to_string();
    f.original = Some(stored(r#"{"key_path":"k","passphrase":"p","password":"old","username":"bob"}"#));
    let c = f.build_certificate(None).unwrap();
    assert_eq!(c.params, r#"{"username":"alice"}"#);
}

#[test]
fn parameters_that_are_not_an_object_stay() {
    let mut f = form(None);
    f.original = Some(stored("[1,2]"));
    let c = f.build_certificate(None).unwrap();
    assert_eq!(c.params, "[1,2]");
}

#[test]
fn new_form_is_empty_password_form_with_sync_on() {
    let f = CertificateForm::new(None);
    assert!(f.original.is_none());
    assert_eq!(f.kind, Some(CertificateKind::UsernamePassword));
    assert!(f.name.is_empty() && f.username.is_empty() && f.password.is_empty());
    assert!(f.key_path.is_empty() && f.passphrase.is_empty() && f.remark.is_empty());
    assert!(f.sync_enabled);
}

#[test]
fn editing_form_starts_with_stored_values() {
    let mut c = stored(r#"{"username":"bob","password":"pw","port":22}"#);
    c.kind = CertificateKind::SshPrivateKey;
    c.sync_enabled = false;
    let f = CertificateForm::new(Some(c));
    assert_eq!(f.name, "old");
    assert_eq!(f.kind, Some(CertificateKind::SshPrivateKey));
    assert_eq!(f.username, "bob");
    assert_eq!(f.password, "pw");
    assert_eq!(f.key_path, "");
    assert_eq!(f.remark, "r");
    assert!(!f.sync_enabled);
    assert!(f.original.is_some());
}
