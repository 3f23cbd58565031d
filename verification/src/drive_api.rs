//! The Google Drive and OneDrive vaults: the addresses and bodies of their
//! requests, what their replies' statuses mean, and the file records read
//! from their listings.
use crate::blob_vault::BlobMeta;
use crate::client::CloudApiError;
use crate::crypto::{append_bytes, str_bytes};
use crate::oauth::{utf8_lossy, utf8_lossy_text};
use crate::pkce_flow::{digits_part, digits_value, is_digit, url_encode, url_encoded};
use crate::text::{decimal_text, i64_to_string, push_str, str_eq, string_from_chars, to_chars};
use vstd::prelude::*;
use vstd::utf8::*;

verus! {

/// Which cloud drive.
#[derive(Debug, Clone, Copy, PartialEq, Eq, Structural)]
pub enum DriveKind {
    GoogleDrive,
    OneDrive,
}

/// The drive's name in messages.
pub open spec fn drive_label(d: DriveKind) -> Seq<char> {
    match d {
        DriveKind::GoogleDrive => "Google Drive"@,
        DriveKind::OneDrive => "OneDrive"@,
    }
}

fn label(d: DriveKind) -> (r: &'static str)
    ensures
        r@ == drive_label(d),
{
    match d {
        DriveKind::GoogleDrive => "Google Drive",
        DriveKind::OneDrive => "OneDrive",
    }
}

/// The concatenation of `parts`.
fn joined(parts: Vec<&str>) -> (r: String)
    ensures
        r@ == parts@.fold_left(Seq::<char>::empty(), |acc: Seq<char>, p: &str| acc + p@),
{
    let ghost f = |acc: Seq<char>, p: &str| acc + p@;
    let mut v: Vec<char> = Vec::new();
    let mut i: usize = 0;
    while i < parts.len()
        invariant
            i <= parts@.len(),
            f == (|acc: Seq<char>, p: &str| acc + p@),
            v@ == parts@.take(i as int).fold_left(Seq::<char>::empty(), f),
        decreases parts@.len() - i,
    {
        let ghost t = parts@.take(i + 1);
        assert(t.drop_last() =~= parts@.take(i as int));
        push_str(&mut v, &to_chars(parts[i]));
        i = i + 1;
    }
    assert(parts@.take(parts@.len() as int) =~= parts@);
    string_from_chars(&v)
}

// ---------------------------------------------------------------------------
// Replies
// ---------------------------------------------------------------------------
/// A 2xx status.
pub open spec fn http_success(status: u16) -> bool {
    200 <= status <= 299
}

/// The error for a refused request that creates the vault folder, quoting
/// the reply.
pub fn create_folder_failure(d: DriveKind, body: &[u8]) -> (r: CloudApiError)
    ensures
        r matches CloudApiError::ServerError(m) && m@ == "创建 "@ + drive_label(d)
            + " 文件夹失败: "@ + utf8_lossy_text(body@),
{
    let text = utf8_lossy(body);
    let m = joined(vec!["创建 ", label(d), " 文件夹失败: ", text.as_str()]);
    proof {
        reveal_with_fuel(Seq::fold_left, 5);
    }
    CloudApiError::ServerError(m)
}

/// The error for a refused upload, quoting the reply.
pub fn upload_failure(d: DriveKind, body: &[u8]) -> (r: CloudApiError)
    ensures
        r matches CloudApiError::ServerError(m) && m@ == "上传 "@ + drive_label(d) + " 文件失败: "@
            + utf8_lossy_text(body@),
{
    let text = utf8_lossy(body);
    let m = joined(vec!["上传 ", label(d), " 文件失败: ", text.as_str()]);
    proof {
        reveal_with_fuel(Seq::fold_left, 5);
    }
    CloudApiError::ServerError(m)
}

/// What the status of a download reply means: 404 is a missing file named
/// by its id, another failure a server error naming the status, and success
/// nothing.
pub fn download_status_error(d: DriveKind, status: u16, file_id: &str) -> (r: Option<CloudApiError>)
    ensures
        status == 404 ==> (r matches Some(CloudApiError::NotFound(m)) && m@ == file_id@),
        status != 404 && !http_success(status) ==> (r matches Some(CloudApiError::ServerError(m))
            && m@ == "下载 "@ + drive_label(d) + " 文件失败: HTTP "@ + decimal_text(status as int)),
        http_success(status) ==> r is None,
{
    if status == 404 {
        return Some(CloudApiError::NotFound(String::from_str(file_id)));
    }
    if 200 <= status && status <= 299 {
        return None;
    }
    let code = i64_to_string(status as i64);
    let m = joined(vec!["下载 ", label(d), " 文件失败: HTTP ", code.as_str()]);
    proof {
        reveal_with_fuel(Seq::fold_left, 5);
    }
    Some(CloudApiError::ServerError(m))
}

/// What the status of a delete reply means: success or 404 (already gone)
/// is fine, anything else a server error naming the status.
pub fn delete_status_error(d: DriveKind, status: u16) -> (r: Option<CloudApiError>)
    ensures
        (http_success(status) || status == 404) ==> r is None,
        !(http_success(status) || status == 404) ==> (r matches Some(CloudApiError::ServerError(m))
            && m@ == "删除 "@ + drive_label(d) + " 文件失败: HTTP "@ + decimal_text(status as int)),
{
    if (200 <= status && status <= 299) || status == 404 {
        return None;
    }
    let code = i64_to_string(status as i64);
    let m = joined(vec!["删除 ", label(d), " 文件失败: HTTP ", code.as_str()]);
    proof {
        reveal_with_fuel(Seq::fold_left, 5);
    }
    Some(CloudApiError::ServerError(m))
}

/// The error for a vault file that the drive does not list.
pub fn missing_file_error(d: DriveKind, key: &str) -> (r: CloudApiError)
    ensures
        r matches CloudApiError::NotFound(m) && m@ == drive_label(d) + " 中未找到文件: "@ + key@,
{
    let m = joined(vec![label(d), " 中未找到文件: ", key]);
    proof {
        reveal_with_fuel(Seq::fold_left, 4);
    }
    CloudApiError::NotFound(m)
}

/// The record of a file just uploaded under `id`: its size in bytes and
/// the upload time.
pub fn uploaded_meta(id: String, content: &[u8], now_ms: i64) -> (r: BlobMeta)
    ensures
        r.key == id,
        r.size == content@.len(),
        r.updated_at == now_ms,
{
    BlobMeta { key: id, size: content.len() as u64, updated_at: now_ms }
}

// ---------------------------------------------------------------------------
// Google Drive
// ---------------------------------------------------------------------------
/// The files endpoint of Google Drive.
pub open spec fn google_files() -> Seq<char> {
    "https://www.googleapis.com/drive/v3/files"@
}

/// The query finding the vault folder.
pub open spec fn google_folder_query() -> Seq<char> {
    "name='ONetCli-vault' and mimeType='application/vnd.google-apps.folder' and trashed=false"@
}

/// The address searching for the vault folder.
pub fn google_folder_search_url() -> (r: String)
    ensures
        r@ == google_files() + "?q="@ + url_encoded(google_folder_query()),
{
    let q = url_encode(
        "name='ONetCli-vault' and mimeType='application/vnd.google-apps.folder' and trashed=false",
    );
    let r = joined(vec!["https://www.googleapis.com/drive/v3/files", "?q=", q.as_str()]);
    proof {
        reveal_with_fuel(Seq::fold_left, 4);
    }
    r
}

/// The query listing the files in folder `folder`.
pub open spec fn google_list_query(folder: Seq<char>) -> Seq<char> {
    "'"@ + folder + "' in parents and trashed=false"@
}

/// The address listing the files in a folder, with their id, name, size
/// and type.
pub fn google_list_url(folder_id: &str) -> (r: String)
    ensures
        r@ == google_files() + "?q="@ + url_encoded(google_list_query(folder_id@))
            + "&fields=files(id,name,size,mimeType)"@,
{
    let query = joined(vec!["'", folder_id, "' in parents and trashed=false"]);
    let q = url_encode(query.as_str());
    let r = joined(
        vec![
            "https://www.googleapis.com/drive/v3/files",
            "?q=",
            q.as_str(),
            "&fields=files(id,name,size,mimeType)",
        ],
    );
    proof {
        reveal_with_fuel(Seq::fold_left, 5);
    }
    r
}

/// The query finding file `name` in folder `folder`.
pub open spec fn google_find_query(folder: Seq<char>, name: Seq<char>) -> Seq<char> {
    "name='"@ + name + "' and '"@ + folder + "' in parents and trashed=false"@
}

/// The address searching a folder for a file by name.
pub fn google_find_url(folder_id: &str, name: &str) -> (r: String)
    ensures
        r@ == google_files() + "?q="@ + url_encoded(google_find_query(folder_id@, name@)),
{
    let query = joined(vec!["name='", name, "' and '", folder_id, "' in parents and trashed=false"]);
    let q = url_encode(query.as_str());
    let r = joined(vec!["https://www.googleapis.com/drive/v3/files", "?q=", q.as_str()]);
    proof {
        reveal_with_fuel(Seq::fold_left, 6);
    }
    r
}

/// The address of a file (to delete it).
pub fn google_file_url(file_id: &str) -> (r: String)
    ensures
        r@ == google_files() + "/"@ + file_id@,
{
    let r = joined(vec!["https://www.googleapis.com/drive/v3/files", "/", file_id]);
    proof {
        reveal_with_fuel(Seq::fold_left, 4);
    }
    r
}

/// The address of a file's contents.
pub fn google_download_url(file_id: &str) -> (r: String)
    ensures
        r@ == google_files() + "/"@ + file_id@ + "?alt=media"@,
{
    let r = joined(vec!["https://www.googleapis.com/drive/v3/files", "/", file_id, "?alt=media"]);
    proof {
        reveal_with_fuel(Seq::fold_left, 5);
    }
    r
}

/// The boundary between the parts of an upload.
pub open spec fn boundary() -> Seq<char> {
    "boundary1234567890"@
}

/// The content type of an upload.
pub fn google_upload_content_type() -> (r: &'static str)
    ensures
        r@ == "multipart/related; boundary=boundary1234567890"@,
{
    "multipart/related; boundary=boundary1234567890"
}

/// The text before the file's bytes in an upload: the metadata part
/// naming the file and its folder, then the header of the content part.
pub open spec fn upload_head(name: Seq<char>, parent: Seq<char>) -> Seq<char> {
    "--"@ + boundary() + "\r\nContent-Type: application/json; charset=UTF-8\r\n\r\n"@
        + "{\"name\":\""@ + name + "\",\"parents\":[\""@ + parent + "\"]}\r\n"@ + "--"@ + boundary()
        + "\r\nContent-Type: application/octet-stream\r\n\r\n"@
}

/// The text after the file's bytes in an upload.
pub open spec fn upload_tail() -> Seq<char> {
    "\r\n--"@ + boundary() + "--\r\n"@
}

/// The multipart body uploading `content` as file `name` into folder
/// `parent_id`.
pub fn google_upload_body(name: &str, parent_id: &str, content: &[u8]) -> (r: Vec<u8>)
    ensures
        r@ == encode_utf8(upload_head(name@, parent_id@)) + content@ + encode_utf8(upload_tail()),
{
    let head = joined(
        vec![
            "--",
            "boundary1234567890",
            "\r\nContent-Type: application/json; charset=UTF-8\r\n\r\n",
            "{\"name\":\"",
            name,
            "\",\"parents\":[\"",
            parent_id,
            "\"]}\r\n",
            "--",
            "boundary1234567890",
            "\r\nContent-Type: application/octet-stream\r\n\r\n",
        ],
    );
    let tail = joined(vec!["\r\n--", "boundary1234567890", "--\r\n"]);
    proof {
        reveal_with_fuel(Seq::fold_left, 12);
        assert(head@ =~= upload_head(name@, parent_id@));
        assert(tail@ =~= upload_tail());
    }
    let mut body = str_bytes(head.as_str());
    append_bytes(&mut body, content);
    let t = str_bytes(tail.as_str());
    append_bytes(&mut body, t.as_slice());
    body
}

/// What `str::parse::<u64>` gives: one or more decimal digits (after an
/// optional `+`) whose value fits in 64 bits.
pub open spec fn parsed_u64(s: Seq<char>) -> Option<u64> {
    let d = digits_part(s);
    if d.len() > 0 && (forall|i: int| 0 <= i < d.len() ==> is_digit(#[trigger] d[i]))
        && digits_value(d) <= u64::MAX {
        Some(digits_value(d) as u64)
    } else {
        None
    }
}

proof fn lemma_digits_nonneg(s: Seq<char>)
    requires
        forall|i: int| 0 <= i < s.len() ==> is_digit(#[trigger] s[i]),
    ensures
        digits_value(s) >= 0,
    decreases s.len(),
{
    if s.len() > 0 {
        lemma_digits_nonneg(s.drop_last());
    }
}

proof fn lemma_digits_prefix_le(s: Seq<char>, n: int)
    requires
        0 <= n <= s.len(),
        forall|i: int| 0 <= i < s.len() ==> is_digit(#[trigger] s[i]),
    ensures
        digits_value(s.take(n)) <= digits_value(s),
    decreases s.len() - n,
{
    if n < s.len() {
        lemma_digits_prefix_le(s, n + 1);
        assert(s.take(n + 1).drop_last() =~= s.take(n));
        lemma_digits_nonneg(s.take(n));
    } else {
        assert(s.take(n) =~= s);
    }
}

proof fn lemma_u64_not_all_digits(s: Seq<char>, k: int)
    requires
        0 <= k < digits_part(s).len(),
        !is_digit(digits_part(s)[k]),
    ensures
        parsed_u64(s) is None,
{
    let d = digits_part(s);
    assert(!(forall|i: int| 0 <= i < d.len() ==> is_digit(#[trigger] d[i])));
}

proof fn lemma_u64_too_big(s: Seq<char>, n: int)
    requires
        0 < n <= digits_part(s).len(),
        forall|k: int| 0 <= k < n ==> is_digit(#[trigger] digits_part(s)[k]),
        digits_value(digits_part(s).take(n)) > u64::MAX,
    ensures
        parsed_u64(s) is None,
{
    let d = digits_part(s);
    if forall|i: int| 0 <= i < d.len() ==> is_digit(#[trigger] d[i]) {
        lemma_digits_prefix_le(d, n);
    }
}

/// Reads a size as `str::parse::<u64>` does; see `parsed_u64`.
pub fn parse_u64(text: &str) -> (r: Option<u64>)
    ensures
        r == parsed_u64(text@),
{
    let s = to_chars(text);
    let ghost d = digits_part(text@);
    let start: usize = if s.len() > 0 && s[0] == '+' {
        1
    } else {
        0
    };
    assert(d =~= s@.skip(start as int));
    if start >= s.len() {
        return None;
    }
    let mut value: u64 = 0;
    let mut i: usize = start;
    while i < s.len()
        invariant
            start <= i <= s@.len(),
            start < s@.len(),
            s@ == text@,
            d == s@.skip(start as int),
            d == digits_part(text@),
            forall|k: int| 0 <= k < i - start ==> is_digit(#[trigger] d[k]),
            value as int == digits_value(d.take(i - start)),
        decreases s@.len() - i,
    {
        let c = s[i];
        assert(d[i - start] == c);
        if !('0' <= c && c <= '9') {
            proof {
                lemma_u64_not_all_digits(text@, i - start);
            }
            return None;
        }
        let ghost t = d.take(i - start + 1);
        assert(t.drop_last() =~= d.take(i - start));
        let digit = (c as u64) - 48;
        if value > (u64::MAX - digit) / 10 {
            proof {
                assert(value * 10 + digit > u64::MAX) by (nonlinear_arith)
                    requires
                        value > (u64::MAX - digit) / 10,
                        digit <= 9,
                ;
                assert(forall|k: int| 0 <= k < i - start + 1 ==> is_digit(#[trigger] d[k]));
                lemma_u64_too_big(text@, i - start + 1);
            }
            return None;
        }
        proof {
            assert(value * 10 + digit <= u64::MAX) by (nonlinear_arith)
                requires
                    value <= (u64::MAX - digit) / 10,
                    digit <= 9,
            ;
        }
        value = value * 10 + digit;
        i = i + 1;
    }
    assert(d.take(d.len() as int) =~= d);
    Some(value)
}

/// The record of a listed Google Drive file: its id, its size where the
/// listing gives one that reads as a number (0 otherwise), and the listing
/// time.
pub open spec fn google_listed(id: String, size: Option<String>, now_ms: i64) -> BlobMeta {
    BlobMeta {
        key: id,
        size: match size {
            Some(s) => match parsed_u64(s@) {
                Some(n) => n,
                None => 0,
            },
            None => 0,
        },
        updated_at: now_ms,
    }
}

/// The records of the files a Google Drive listing gives (id and size).
pub fn google_listed_files(files: Vec<(String, Option<String>)>, now_ms: i64) -> (r: Vec<BlobMeta>)
    ensures
        r@.len() == files@.len(),
        forall|i: int|
            0 <= i < files@.len() ==> #[trigger] r@[i] == google_listed(
                files@[i].0,
                files@[i].1,
                now_ms,
            ),
{
    let mut out: Vec<BlobMeta> = Vec::new();
    let mut i: usize = 0;
    while i < files.len()
        invariant
            i <= files@.len(),
            out@.len() == i,
            forall|k: int|
                0 <= k < i ==> #[trigger] out@[k] == google_listed(files@[k].0, files@[k].1, now_ms),
        decreases files@.len() - i,
    {
        let size = match &files[i].1 {
            Some(s) => match parse_u64(s.as_str()) {
                Some(n) => n,
                None => 0,
            },
            None => 0,
        };
        out.push(BlobMeta { key: files[i].0.clone(), size, updated_at: now_ms });
        i = i + 1;
    }
    out
}

// ---------------------------------------------------------------------------
// OneDrive
// ---------------------------------------------------------------------------
/// The Microsoft Graph address of the signed-in user's drive.
pub open spec fn graph_drive() -> Seq<char> {
    "https://graph.microsoft.com/v1.0/me/drive"@
}

/// The address searching the drive's root for the vault folder.
pub fn onedrive_folder_search_url() -> (r: String)
    ensures
        r@ == graph_drive() + "/root/children?q="@ + url_encoded(
            "name='ONetCli-vault' and folder"@,
        ),
{
    let q = url_encode("name='ONetCli-vault' and folder");
    let r = joined(vec!["https://graph.microsoft.com/v1.0/me/drive", "/root/children?q=", q.as_str()]);
    proof {
        reveal_with_fuel(Seq::fold_left, 4);
    }
    r
}

/// The address creating a folder in `parent` (the drive's root where
/// there is none).
pub fn onedrive_create_folder_url(parent_id: Option<&str>) -> (r: String)
    ensures
        r@ == match parent_id {
            Some(p) => graph_drive() + "/items/"@ + p@ + "/children"@,
            None => graph_drive() + "/root/children"@,
        },
{
    let r = match parent_id {
        Some(p) => joined(vec!["https://graph.microsoft.com/v1.0/me/drive", "/items/", p, "/children"]),
        None => joined(vec!["https://graph.microsoft.com/v1.0/me/drive", "/root/children"]),
    };
    proof {
        reveal_with_fuel(Seq::fold_left, 5);
    }
    r
}

/// The address uploading file `name` into folder `folder` (the name
/// percent-encoded).
pub fn onedrive_upload_url(folder_id: &str, name: &str) -> (r: String)
    ensures
        r@ == graph_drive() + "/items/"@ + folder_id@ + ":/"@ + url_encoded(name@) + ":/content"@,
{
    let n = url_encode(name);
    let r = joined(
        vec![
            "https://graph.microsoft.com/v1.0/me/drive",
            "/items/",
            folder_id,
            ":/",
            n.as_str(),
            ":/content",
        ],
    );
    proof {
        reveal_with_fuel(Seq::fold_left, 7);
    }
    r
}

/// The address of an item (to delete it).
pub fn onedrive_item_url(item_id: &str) -> (r: String)
    ensures
        r@ == graph_drive() + "/items/"@ + item_id@,
{
    let r = joined(vec!["https://graph.microsoft.com/v1.0/me/drive", "/items/", item_id]);
    proof {
        reveal_with_fuel(Seq::fold_left, 4);
    }
    r
}

/// The address of an item's contents.
pub fn onedrive_content_url(item_id: &str) -> (r: String)
    ensures
        r@ == graph_drive() + "/items/"@ + item_id@ + "/content"@,
{
    let r = joined(vec!["https://graph.microsoft.com/v1.0/me/drive", "/items/", item_id, "/content"]);
    proof {
        reveal_with_fuel(Seq::fold_left, 5);
    }
    r
}

/// The address listing a folder's children.
pub fn onedrive_children_url(folder_id: &str) -> (r: String)
    ensures
        r@ == graph_drive() + "/items/"@ + folder_id@ + "/children"@,
{
    let r = joined(vec!["https://graph.microsoft.com/v1.0/me/drive", "/items/", folder_id, "/children"]);
    proof {
        reveal_with_fuel(Seq::fold_left, 5);
    }
    r
}

/// The address filtering a folder's children by name.
pub fn onedrive_find_url(folder_id: &str, name: &str) -> (r: String)
    ensures
        r@ == graph_drive() + "/items/"@ + folder_id@ + "/children?$filter=name eq '"@ + name@
            + "'"@,
{
    let r = joined(
        vec![
            "https://graph.microsoft.com/v1.0/me/drive",
            "/items/",
            folder_id,
            "/children?$filter=name eq '",
            name,
            "'",
        ],
    );
    proof {
        reveal_with_fuel(Seq::fold_left, 7);
    }
    r
}

/// The first of the listed items (id, name) named `name`.
pub open spec fn first_named(items: Seq<(String, String)>, name: Seq<char>) -> Option<String>
    decreases items.len(),
{
    if items.len() == 0 {
        None
    } else if items[0].1@ == name {
        Some(items[0].0)
    } else {
        first_named(items.drop_first(), name)
    }
}

/// The id of the first listed item named `name`.
pub fn onedrive_pick_named(items: &Vec<(String, String)>, name: &str) -> (r: Option<String>)
    ensures
        r == first_named(items@, name@),
{
    let mut i: usize = 0;
    assert(items@.skip(0) =~= items@);
    while i < items.len()
        invariant
            i <= items@.len(),
            first_named(items@, name@) == first_named(items@.skip(i as int), name@),
        decreases items@.len() - i,
    {
        let ghost rest = items@.skip(i as int);
        assert(rest.drop_first() =~= items@.skip(i + 1));
        if str_eq(items[i].1.as_str(), name) {
            return Some(items[i].0.clone());
        }
        i = i + 1;
    }
    None
}

/// The records of the items a OneDrive listing gives (id and size): the
/// size as reported (0 where missing, read as unsigned) and the listing
/// time.
pub fn onedrive_listed_files(items: Vec<(String, Option<i64>)>, now_ms: i64) -> (r: Vec<BlobMeta>)
    ensures
        r@.len() == items@.len(),
        forall|i: int|
            0 <= i < items@.len() ==> {
                &&& (#[trigger] r@[i]).key == items@[i].0
                &&& r@[i].size == match items@[i].1 {
                    Some(n) => n as u64,
                    None => 0u64,
                }
                &&& r@[i].updated_at == now_ms
            },
{
    let mut out: Vec<BlobMeta> = Vec::new();
    let mut i: usize = 0;
    while i < items.len()
        invariant
            i <= items@.len(),
            out@.len() == i,
            forall|k: int|
                0 <= k < i ==> {
                    &&& (#[trigger] out@[k]).key == items@[k].0
                    &&& out@[k].size == match items@[k].1 {
                        Some(n) => n as u64,
                        None => 0u64,
                    }
                    &&& out@[k].updated_at == now_ms
                },
        decreases items@.len() - i,
    {
        let size: u64 = match items[i].1 {
            Some(n) => n as u64,
            None => 0,
        };
        out.push(BlobMeta { key: items[i].0.clone(), size, updated_at: now_ms });
        i = i + 1;
    }
    out
}

} // verus!
