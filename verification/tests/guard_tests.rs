use omnihub_core::remote_guard::{
    is_private_v4, is_private_v6, GuardConfig, IpAddress, RateLimiter, RemoteGuard, RemoteGuardError, UrlHost,
};

#[test]
fn test_check_url_accepts_https() {
    let guard = RemoteGuard::shared();
    let url = guard.check_url("https://example.com/path").unwrap();
    assert_eq!(url.scheme, "https");
    assert_eq!(url.host_str.as_deref(), Some("example.com"));
    assert_eq!(url.host, UrlHost::Domain);
}

#[test]
fn test_check_url_rejects_ftp() {
    let guard = RemoteGuard::shared();
    let err = guard.check_url("ftp://example.com").unwrap_err();
    assert!(matches!(err, RemoteGuardError::DisallowedScheme(s) if s == "ftp"));
}

#[test]
fn test_check_url_rejects_loopback_v4() {
    let guard = RemoteGuard::shared();
    let err = guard.check_url("http://127.0.0.1/secret").unwrap_err();
    assert!(matches!(err, RemoteGuardError::PrivateAddress(IpAddress::V4(_))));
}

#[test]
fn test_check_url_rejects_aws_metadata_ip() {
    let guard = RemoteGuard::shared();
    let err = guard.check_url("http://169.254.169.254/latest/meta-data").unwrap_err();
    assert!(matches!(err, RemoteGuardError::PrivateAddress(IpAddress::V4(_))));
}

#[test]
fn test_check_url_rejects_rfc1918() {
    let guard = RemoteGuard::shared();
    assert!(matches!(guard.check_url("http://10.0.0.1/").unwrap_err(), RemoteGuardError::PrivateAddress(_)));
    assert!(matches!(guard.check_url("http://192.168.1.1/").unwrap_err(), RemoteGuardError::PrivateAddress(_)));
    assert!(matches!(guard.check_url("http://172.16.0.1/").unwrap_err(), RemoteGuardError::PrivateAddress(_)));
}

#[test]
fn test_check_url_with_host_allowlist_rejects_other_hosts() {
    let cfg = GuardConfig { host_allowlist: vec!["api.allowed.com".to_string()], ..Default::default() };
    let guard = RemoteGuard::new(cfg);
    assert!(guard.check_url("https://api.allowed.com/").is_ok());
    assert!(matches!(guard.check_url("https://evil.com/").unwrap_err(), RemoteGuardError::HostNotAllowed(_)));
}

#[test]
fn test_check_body_size() {
    let guard = RemoteGuard::shared();
    assert!(guard.check_body_size(1024).is_ok());
    let cfg = GuardConfig { max_body_bytes: 1024, ..Default::default() };
    let guard = RemoteGuard::new(cfg);
    assert!(matches!(
        guard.check_body_size(2048).unwrap_err(),
        RemoteGuardError::BodyTooLarge { size: 2048, limit: 1024 }
    ));
}

#[test]
fn test_rate_limiter_blocks_burst() {
    let cfg = GuardConfig { max_qps_per_host: 3, ..Default::default() };
    let mut limiter = RateLimiter::new(cfg, 100);
    assert!(limiter.check_at("api.example.com", 0).is_ok());
    assert!(limiter.check_at("api.example.com", 1).is_ok());
    assert!(limiter.check_at("api.example.com", 2).is_ok());
    assert!(matches!(limiter.check_at("api.example.com", 3).unwrap_err(), RemoteGuardError::RateLimited { .. }));
    assert!(limiter.check_at("other.example.com", 4).is_ok());
}

#[test]
fn rate_limiter_opens_a_new_window() {
    let cfg = GuardConfig { max_qps_per_host: 1, ..Default::default() };
    let mut limiter = RateLimiter::new(cfg, 100);
    assert!(limiter.check_at("API.example.com", 0).is_ok());
    assert!(limiter.check_at("api.example.com", 50).is_err());
    assert!(limiter.check_at("api.example.com", 100).is_ok());
}

#[test]
fn test_url_without_host_rejected() {
    let guard = RemoteGuard::shared();
    assert!(matches!(guard.check_url("http://").unwrap_err(), RemoteGuardError::InvalidUrl(_)));
}

#[test]
fn test_invalid_url_rejected() {
    let guard = RemoteGuard::shared();
    assert!(matches!(guard.check_url("not a url").unwrap_err(), RemoteGuardError::InvalidUrl(_)));
}

#[test]
fn private_address_ranges() {
    assert!(is_private_v4(0x0A00_0001));
    assert!(is_private_v4(0xAC10_0001));
    assert!(!is_private_v4(0xAC20_0001));
    assert!(is_private_v4(0xE000_0001));
    assert!(!is_private_v4(0x0808_0808));
    assert!(is_private_v6(1));
    assert!(is_private_v6(0xfd00u128 << 112));
    assert!(is_private_v6(0xfe80u128 << 112));
    assert!(!is_private_v6(0x2001u128 << 112));
}

#[test]
fn private_v6_url_refused_unless_allowed() {
    let guard = RemoteGuard::shared();
    assert!(matches!(guard.check_url("http://[::1]/").unwrap_err(), RemoteGuardError::PrivateAddress(IpAddress::V6(1))));
    let open = RemoteGuard::new(GuardConfig { allow_private_addresses: true, ..Default::default() });
    assert!(open.check_url("http://[::1]/").is_ok());
}
