use omnihub_core::client::CloudApiError;
use omnihub_core::drive_api::{
    create_folder_failure, delete_status_error, download_status_error, google_download_url,
    google_file_url, google_find_url, google_folder_search_url, google_list_url, google_listed_files,
    google_upload_body, google_upload_content_type, missing_file_error, onedrive_children_url,
    onedrive_content_url, onedrive_create_folder_url, onedrive_find_url, onedrive_folder_search_url,
    onedrive_item_url, onedrive_listed_files, onedrive_pick_named, onedrive_upload_url, parse_u64,
    upload_failure, uploaded_meta, DriveKind,
};

#[test]
fn google_drive_addresses() {
    assert_eq!(
        google_folder_search_url(),
        "https://www.googleapis.com/drive/v3/files?q=name%3D%27ONetCli-vault%27%20and%20mimeType%3D%27application%2Fvnd.google-apps.folder%27%20and%20trashed%3Dfalse"
    );
    assert_eq!(
        google_list_url("F1"),
        "https://www.googleapis.com/drive/v3/files?q=%27F1%27%20in%20parents%20and%20trashed%3Dfalse&fields=files(id,name,size,mimeType)"
    );
    assert_eq!(
        google_find_url("F1", "v.bin"),
        "https://www.googleapis.com/drive/v3/files?q=name%3D%27v.bin%27%20and%20%27F1%27%20in%20parents%20and%20trashed%3Dfalse"
    );
    assert_eq!(google_file_url("X"), "https://www.googleapis.com/drive/v3/files/X");
    assert_eq!(google_download_url("X"), "https://www.googleapis.com/drive/v3/files/X?alt=media");
    assert_eq!(google_upload_content_type(), "multipart/related; boundary=boundary1234567890");
}

#[test]
fn google_upload_body_wraps_content() {
    let body = google_upload_body("n", "p", b"AB");
    let expected = "--boundary1234567890\r\nContent-Type: application/json; charset=UTF-8\r\n\r\n{\"name\":\"n\",\"parents\":[\"p\"]}\r\n--boundary1234567890\r\nContent-Type: application/octet-stream\r\n\r\nAB\r\n--boundary1234567890--\r\n";
    assert_eq!(body, expected.as_bytes());
}

#[test]
fn sizes_parse_like_std() {
    assert_eq!(parse_u64("123"), Some(123));
    assert_eq!(parse_u64("+7"), Some(7));
    assert_eq!(parse_u64("18446744073709551615"), Some(u64::MAX));
    assert_eq!(parse_u64("18446744073709551616"), None);
    assert_eq!(parse_u64(""), None);
    assert_eq!(parse_u64("+"), None);
    assert_eq!(parse_u64("1a"), None);
    assert_eq!(parse_u64("-1"), None);
    for s in ["0", "42", "+0", "007", "99999999999999999999", " 1", "1 "] {
        assert_eq!(parse_u64(s), s.parse::<u64>().ok(), "{}", s);
    }
}

#[test]
fn listings_become_records() {
    let g = google_listed_files(
        vec![("a".to_string(), Some("12".to_string())), ("b".to_string(), Some("x".to_string())), ("c".to_string(), None)],
        5,
    );
    assert_eq!(g.iter().map(|m| (m.key.as_str(), m.size, m.updated_at)).collect::<Vec<_>>(), vec![("a", 12, 5), ("b", 0, 5), ("c", 0, 5)]);
    let o = onedrive_listed_files(vec![("a".to_string(), Some(10)), ("b".to_string(), None), ("c".to_string(), Some(-1))], 9);
    assert_eq!(o.iter().map(|m| (m.key.as_str(), m.size)).collect::<Vec<_>>(), vec![("a", 10), ("b", 0), ("c", u64::MAX)]);
    let meta = uploaded_meta("id9".to_string(), b"hello", 77);
    assert_eq!((meta.key.as_str(), meta.size, meta.updated_at), ("id9", 5, 77));
}

#[test]
fn onedrive_addresses() {
    assert_eq!(
        onedrive_folder_search_url(),
        "https://graph.microsoft.com/v1.0/me/drive/root/children?q=name%3D%27ONetCli-vault%27%20and%20folder"
    );
    assert_eq!(onedrive_create_folder_url(None), "https://graph.microsoft.com/v1.0/me/drive/root/children");
    assert_eq!(onedrive_create_folder_url(Some("P")), "https://graph.microsoft.com/v1.0/me/drive/items/P/children");
    assert_eq!(
        onedrive_upload_url("F", "my file.bin"),
        "https://graph.microsoft.com/v1.0/me/drive/items/F:/my%20file.bin:/content"
    );
    assert_eq!(onedrive_item_url("I"), "https://graph.microsoft.com/v1.0/me/drive/items/I");
    assert_eq!(onedrive_content_url("I"), "https://graph.microsoft.com/v1.0/me/drive/items/I/content");
    assert_eq!(onedrive_children_url("F"), "https://graph.microsoft.com/v1.0/me/drive/items/F/children");
    assert_eq!(
        onedrive_find_url("F", "v"),
        "https://graph.microsoft.com/v1.0/me/drive/items/F/children?$filter=name eq 'v'"
    );
    let items = vec![
        ("1".to_string(), "other".to_string()),
        ("2".to_string(), "ONetCli-vault".to_string()),
        ("3".to_string(), "ONetCli-vault".to_string()),
    ];
    assert_eq!(onedrive_pick_named(&items, "ONetCli-vault"), Some("2".to_string()));
    assert_eq!(onedrive_pick_named(&items, "none"), None);
}

#[test]
fn drive_reply_statuses() {
    match download_status_error(DriveKind::GoogleDrive, 404, "id1") {
        Some(CloudApiError::NotFound(m)) => assert_eq!(m, "id1"),
        _ => panic!("expected not found"),
    }
    match download_status_error(DriveKind::GoogleDrive, 500, "id1") {
        Some(CloudApiError::ServerError(m)) => assert_eq!(m, "下载 Google Drive 文件失败: HTTP 500"),
        _ => panic!("expected a server error"),
    }
    assert!(download_status_error(DriveKind::OneDrive, 200, "id1").is_none());
    assert!(delete_status_error(DriveKind::OneDrive, 404).is_none());
    assert!(delete_status_error(DriveKind::OneDrive, 204).is_none());
    match delete_status_error(DriveKind::OneDrive, 403) {
        Some(CloudApiError::ServerError(m)) => assert_eq!(m, "删除 OneDrive 文件失败: HTTP 403"),
        _ => panic!("expected a server error"),
    }
    match create_folder_failure(DriveKind::OneDrive, b"x") {
        CloudApiError::ServerError(m) => assert_eq!(m, "创建 OneDrive 文件夹失败: x"),
        _ => panic!("expected a server error"),
    }
    match upload_failure(DriveKind::GoogleDrive, b"y") {
        CloudApiError::ServerError(m) => assert_eq!(m, "上传 Google Drive 文件失败: y"),
        _ => panic!("expected a server error"),
    }
    match missing_file_error(DriveKind::GoogleDrive, "k") {
        CloudApiError::NotFound(m) => assert_eq!(m, "Google Drive 中未找到文件: k"),
        _ => panic!("expected not found"),
    }
}
