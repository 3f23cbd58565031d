use omnihub_core::client::CloudApiError;
use omnihub_core::endpoints::{WebDavAuth, WebDavConfig};
use omnihub_core::webdav::{
    delete_status_error, download_status_error, exists_from_status, list_status_error,
    listed_files, listed_files_checked, propfind_body, propfind_depth, propfind_url, upload_outcome,
};

fn config() -> WebDavConfig {
    WebDavConfig {
        endpoint: "https://dav.example.com//".to_string(),
        auth: WebDavAuth::Bearer { token: "t".to_string() },
        vault_path: "/vault/".to_string(),
    }
}

#[test]
fn listing_request() {
    assert_eq!(propfind_url(&config()), "https://dav.example.com/vault/");
    assert_eq!(propfind_depth(None), "1");
    assert_eq!(propfind_depth(Some("")), "1");
    assert_eq!(propfind_depth(Some("a")), "infinity");
    assert_eq!(
        propfind_body(),
        r#"<?xml version="1.0" encoding="utf-8"?><d:propfind xmlns:d="DAV:"><d:allprop/></d:propfind>"#
    );
}

#[test]
fn listing_reads_addresses_one_byte_past_the_tag() {
    let text = "<d:multistatus>\n<d:href> /vault/a.bin</d:href>\r\n<d:href>/vault/b.bin</d:href>\n  <d:href>x/other/c</d:href>\n<d:href>x/vault/d.bin\nno tag\n<d:href>x/vault/e.txt</d:href>";
    let all = listed_files(text, "/vault/", None);
    let keys: Vec<&str> = all.iter().map(|m| m.key.as_str()).collect();
    assert_eq!(keys, vec!["/vault/a.bin", "/vault/e.txt"]);
    assert!(all.iter().all(|m| m.size == 0 && m.updated_at == 0));
    let only_bin = listed_files(text, "vault", Some(".bin"));
    assert_eq!(only_bin.iter().map(|m| m.key.as_str()).collect::<Vec<_>>(), vec!["/vault/a.bin"]);
    assert_eq!(listed_files_checked(text, "/vault/", None).map(|v| v.len()), Some(2));
    let checked = listed_files_checked(text, "/vault/", None).unwrap();
    assert_eq!(checked.iter().map(|m| m.key.as_str()).collect::<Vec<_>>(), vec!["/vault/a.bin", "/vault/e.txt"]);
}

#[test]
fn unreadable_listing_lines_are_refused() {
    assert!(listed_files_checked("ok\n<d:href>", "/vault", None).is_none());
    assert!(listed_files_checked("<d:href>中/vault/a</d:href>", "/vault", None).is_none());
    assert!(listed_files_checked("nothing here", "/vault", None).unwrap().is_empty());
}

#[test]
fn webdav_reply_statuses() {
    let meta = upload_outcome(201, "k", 10, 7).unwrap();
    assert_eq!((meta.key.as_str(), meta.size, meta.updated_at), ("k", 10, 7));
    match upload_outcome(507, "k", 10, 7) {
        Err(CloudApiError::ServerError(m)) => assert_eq!(m, "WebDAV 上传失败: HTTP 507"),
        _ => panic!("expected a server error"),
    }
    match download_status_error(404, "k") {
        Some(CloudApiError::NotFound(m)) => assert_eq!(m, "k"),
        _ => panic!("expected not found"),
    }
    match download_status_error(401, "k") {
        Some(CloudApiError::ServerError(m)) => assert_eq!(m, "WebDAV 下载失败: HTTP 401"),
        _ => panic!("expected a server error"),
    }
    assert!(download_status_error(200, "k").is_none());
    assert!(delete_status_error(404).is_none());
    match delete_status_error(423) {
        Some(CloudApiError::ServerError(m)) => assert_eq!(m, "WebDAV 删除失败: HTTP 423"),
        _ => panic!("expected a server error"),
    }
    assert!(exists_from_status(204));
    assert!(!exists_from_status(404));
    match list_status_error(405) {
        Some(CloudApiError::ServerError(m)) => assert_eq!(m, "WebDAV 列举失败: HTTP 405"),
        _ => panic!("expected a server error"),
    }
    assert!(list_status_error(207).is_none());
}
