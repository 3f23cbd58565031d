//! The WebDAV vault: what the statuses of its replies mean, and the files
//! read from a `PROPFIND` listing.
use crate::blob_vault::BlobMeta;
use crate::client::CloudApiError;
use crate::endpoints::{strip_leading, strip_trailing, trim_end_matches, trim_start_matches, WebDavConfig};
use crate::text::{
    contains_seq, decimal_text, find_chars, find_from, has_prefix, has_prefix_exec, i64_to_string,
    contains_exec, lines_of, push_str, slice_chars, split_lines, string_from_chars, to_chars,
};
use vstd::prelude::*;

verus! {

/// A 2xx status.
pub open spec fn dav_success(status: u16) -> bool {
    200 <= status <= 299
}

/// `message` followed by the status.
fn with_status(message: &str, status: u16) -> (r: String)
    ensures
        r@ == message@ + decimal_text(status as int),
{
    let code = i64_to_string(status as i64);
    let mut v = to_chars(message);
    push_str(&mut v, &to_chars(code.as_str()));
    string_from_chars(&v)
}

/// What an upload reply means: success (201 Created included) records the
/// file with its size and the upload time; anything else is a server error
/// naming the status.
pub fn upload_outcome(status: u16, key: &str, size: u64, now_ms: i64) -> (r: Result<BlobMeta, CloudApiError>)
    ensures
        (dav_success(status) || status == 201) ==> (r matches Ok(m) && m.key@ == key@ && m.size
            == size && m.updated_at == now_ms),
        !(dav_success(status) || status == 201) ==> (r matches Err(CloudApiError::ServerError(m))
            && m@ == "WebDAV 上传失败: HTTP "@ + decimal_text(status as int)),
{
    if (200 <= status && status <= 299) || status == 201 {
        Ok(BlobMeta { key: String::from_str(key), size, updated_at: now_ms })
    } else {
        Err(CloudApiError::ServerError(with_status("WebDAV 上传失败: HTTP ", status)))
    }
}

/// What the status of a download reply means: 404 is a missing file
/// named by its key, another failure a server error, success nothing.
pub fn download_status_error(status: u16, key: &str) -> (r: Option<CloudApiError>)
    ensures
        status == 404 ==> (r matches Some(CloudApiError::NotFound(m)) && m@ == key@),
        status != 404 && !dav_success(status) ==> (r matches Some(CloudApiError::ServerError(m))
            && m@ == "WebDAV 下载失败: HTTP "@ + decimal_text(status as int)),
        dav_success(status) ==> r is None,
{
    if status == 404 {
        Some(CloudApiError::NotFound(String::from_str(key)))
    } else if 200 <= status && status <= 299 {
        None
    } else {
        Some(CloudApiError::ServerError(with_status("WebDAV 下载失败: HTTP ", status)))
    }
}

/// What the status of a delete reply means: success or 404 (already gone)
/// is fine, anything else a server error.
pub fn delete_status_error(status: u16) -> (r: Option<CloudApiError>)
    ensures
        (dav_success(status) || status == 404) ==> r is None,
        !(dav_success(status) || status == 404) ==> (r matches Some(CloudApiError::ServerError(m))
            && m@ == "WebDAV 删除失败: HTTP "@ + decimal_text(status as int)),
{
    if (200 <= status && status <= 299) || status == 404 {
        None
    } else {
        Some(CloudApiError::ServerError(with_status("WebDAV 删除失败: HTTP ", status)))
    }
}

/// Whether a `HEAD` reply says the file exists: a 2xx status.
pub fn exists_from_status(status: u16) -> (r: bool)
    ensures
        r == dav_success(status),
{
    200 <= status && status <= 299
}

/// The error for a failed listing.
pub fn list_status_error(status: u16) -> (r: Option<CloudApiError>)
    ensures
        dav_success(status) ==> r is None,
        !dav_success(status) ==> (r matches Some(CloudApiError::ServerError(m)) && m@
            == "WebDAV 列举失败: HTTP "@ + decimal_text(status as int)),
{
    if 200 <= status && status <= 299 {
        None
    } else {
        Some(CloudApiError::ServerError(with_status("WebDAV 列举失败: HTTP ", status)))
    }
}

// ---------------------------------------------------------------------------
// Listing
// ---------------------------------------------------------------------------
/// The address a listing is asked of: the endpoint without trailing
/// slashes, `/`, and the vault path without leading slashes.
pub open spec fn propfind_url_text(endpoint: Seq<char>, vault_path: Seq<char>) -> Seq<char> {
    strip_trailing(endpoint, '/') + seq!['/'] + strip_leading(vault_path, '/')
}

/// The address a listing is asked of; see `propfind_url_text`.
pub fn propfind_url(config: &WebDavConfig) -> (r: String)
    ensures
        r@ == propfind_url_text(config.endpoint@, config.vault_path@),
{
    let mut v = trim_end_matches(&to_chars(config.endpoint.as_str()), '/');
    v.push('/');
    let p = trim_start_matches(&to_chars(config.vault_path.as_str()), '/');
    push_str(&mut v, &p);
    string_from_chars(&v)
}

/// The `Depth` of a listing: the folder itself (`1`) without a prefix to
/// search for, the whole tree (`infinity`) with one.
pub fn propfind_depth(prefix: Option<&str>) -> (r: &'static str)
    ensures
        r@ == match prefix {
            Some(p) => if p@.len() == 0 {
                "1"@
            } else {
                "infinity"@
            },
            None => "1"@,
        },
{
    match prefix {
        Some(p) => {
            if p.is_empty() {
                "1"
            } else {
                "infinity"
            }
        },
        None => "1",
    }
}

/// The body of a listing request: all properties.
pub fn propfind_body() -> (r: &'static str)
    ensures
        r@ == "<?xml version=\"1.0\" encoding=\"utf-8\"?><d:propfind xmlns:d=\"DAV:\"><d:allprop/></d:propfind>"@,
{
    "<?xml version=\"1.0\" encoding=\"utf-8\"?><d:propfind xmlns:d=\"DAV:\"><d:allprop/></d:propfind>"
}

/// The path every listed file must start with: `/` and the vault path
/// without leading or trailing slashes.
pub open spec fn vault_prefix_text(vault_path: Seq<char>) -> Seq<char> {
    seq!['/'] + strip_trailing(strip_leading(vault_path, '/'), '/')
}

/// The opening tag of a listed address.
pub open spec fn href_open() -> Seq<char> {
    "<d:href>"@
}

/// The closing tag of a listed address.
pub open spec fn href_close() -> Seq<char> {
    "</d:href>"@
}

/// Where a line's address starts being read: the position nine
/// characters past the start of its first opening tag (one past the tag's
/// end).
pub open spec fn href_start(line: Seq<char>) -> Option<int> {
    match find_from(line, href_open(), 0) {
        Some(s) => Some(s + 9),
        None => None,
    }
}

/// A line the listing can be read from: where it has an opening tag, one
/// ASCII character follows the tag (the reader skips that one byte, and a
/// longer character or none would stop it).
pub open spec fn line_readable(line: Seq<char>) -> bool {
    match find_from(line, href_open(), 0) {
        Some(s) => s + 8 < line.len() && line[s + 8] <= '\u{7f}',
        None => true,
    }
}

/// The address a line gives: the text from its start (see `href_start`)
/// up to the first closing tag after it.
pub open spec fn href_of(line: Seq<char>) -> Option<Seq<char>> {
    match href_start(line) {
        Some(st) => {
            let rest = line.skip(st);
            match find_from(rest, href_close(), 0) {
                Some(e) => Some(rest.take(e)),
                None => None,
            }
        },
        None => None,
    }
}

/// The addresses of the lines, in order, that lie under the vault and
/// contain `search`.
pub open spec fn listed_hrefs(lines: Seq<Seq<char>>, vault: Seq<char>, search: Seq<char>) -> Seq<Seq<char>>
    decreases lines.len(),
{
    if lines.len() == 0 {
        Seq::empty()
    } else {
        let prev = listed_hrefs(lines.drop_last(), vault, search);
        match href_of(lines.last()) {
            Some(h) => if has_prefix(h, vault) && contains_seq(h, search) {
                prev.push(h)
            } else {
                prev
            },
            None => prev,
        }
    }
}

/// Every line of `text` can be read.
pub open spec fn listing_readable(text: Seq<char>) -> bool {
    forall|i: int| 0 <= i < lines_of(text).len() ==> line_readable(#[trigger] lines_of(text)[i])
}

proof fn lemma_href_start_in_line(line: Seq<char>)
    requires
        line_readable(line),
    ensures
        href_start(line) matches Some(st) ==> 0 <= st <= line.len(),
{
    crate::text::lemma_find_from_props(line, href_open(), 0);
}

fn href_exec(line: &Vec<char>) -> (r: Option<Vec<char>>)
    requires
        line_readable(line@),
    ensures
        match r {
            Some(h) => href_of(line@) == Some(h@),
            None => href_of(line@) is None,
        },
{
    let open = to_chars("<d:href>");
    assert(open@ == href_open());
    proof {
        reveal_strlit("<d:href>");
        lemma_href_start_in_line(line@);
    }
    match find_chars(line, &open, 0) {
        None => None,
        Some(s) => {
            assert(find_from(line@, href_open(), 0) == Some(s as int));
            assert(href_start(line@) == Some(s + 9));
            let n = line.len();
            assert(s + 9 <= n);
            let st = s + 9;
            let rest = slice_chars(line, st, line.len());
            assert(rest@ =~= line@.skip(st as int));
            let close = to_chars("</d:href>");
            match find_chars(&rest, &close, 0) {
                Some(e) => {
                    proof {
                        crate::text::lemma_find_from_props(rest@, close@, 0);
                    }
                    let h = slice_chars(&rest, 0, e);
                    assert(h@ =~= rest@.take(e as int));
                    Some(h)
                },
                None => None,
            }
        },
    }
}

/// The files a `PROPFIND` reply lists (decoded as text): for each line with
/// an address under the vault (see `vault_prefix_text`) that contains the
/// searched prefix (empty where there is none), the address as the key,
/// with no size or time.
pub fn listed_files(text: &str, vault_path: &str, prefix: Option<&str>) -> (r: Vec<BlobMeta>)
    requires
        listing_readable(text@),
    ensures
        r@.len() == listed_hrefs(
            lines_of(text@),
            vault_prefix_text(vault_path@),
            match prefix {
                Some(p) => p@,
                None => Seq::empty(),
            },
        ).len(),
        forall|i: int|
            0 <= i < r@.len() ==> (#[trigger] r@[i]).key@ == listed_hrefs(
                lines_of(text@),
                vault_prefix_text(vault_path@),
                match prefix {
                    Some(p) => p@,
                    None => Seq::empty(),
                },
            )[i] && r@[i].size == 0 && r@[i].updated_at == 0,
{
    let search: Vec<char> = match prefix {
        Some(p) => to_chars(p),
        None => Vec::new(),
    };
    let inner = trim_end_matches(&trim_start_matches(&to_chars(vault_path), '/'), '/');
    let mut vault: Vec<char> = Vec::new();
    vault.push('/');
    push_str(&mut vault, &inner);
    let ghost sv = search@;
    let ghost vv = vault@;
    assert(vv =~= vault_prefix_text(vault_path@));
    let lines = split_lines(&to_chars(text));
    let ghost ls = lines_of(text@);
    let mut out: Vec<BlobMeta> = Vec::new();
    let mut i: usize = 0;
    while i < lines.len()
        invariant
            i <= lines@.len(),
            lines@.len() == ls.len(),
            forall|k: int| 0 <= k < lines@.len() ==> (#[trigger] lines@[k])@ == ls[k],
            ls == lines_of(text@),
            listing_readable(text@),
            search@ == sv,
            vault@ == vv,
            out@.len() == listed_hrefs(ls.take(i as int), vv, sv).len(),
            forall|k: int|
                0 <= k < out@.len() ==> (#[trigger] out@[k]).key@ == listed_hrefs(
                    ls.take(i as int),
                    vv,
                    sv,
                )[k] && out@[k].size == 0 && out@[k].updated_at == 0,
        decreases lines@.len() - i,
    {
        let ghost t = ls.take(i + 1);
        assert(t.drop_last() =~= ls.take(i as int));
        assert(t.last() == ls[i as int]);
        assert(line_readable(ls[i as int]));
        match href_exec(&lines[i]) {
            Some(h) => {
                if has_prefix_exec(&h, &vault) && contains_exec(&h, &search) {
                    let ghost before = out@;
                    out.push(BlobMeta { key: string_from_chars(&h), size: 0, updated_at: 0 });
                    assert(forall|k: int| 0 <= k < before.len() ==> out@[k] == before[k]);
                }
            },
            None => {},
        }
        i = i + 1;
    }
    assert(ls.take(lines@.len() as int) =~= ls);
    out
}

/// The files a `PROPFIND` reply lists, where every line can be read; `None`
/// where a line cannot (see `line_readable`).
pub fn listed_files_checked(text: &str, vault_path: &str, prefix: Option<&str>) -> (r: Option<Vec<BlobMeta>>)
    ensures
        r is Some <==> listing_readable(text@),
        r matches Some(v) ==> v@.len() == listed_hrefs(
            lines_of(text@),
            vault_prefix_text(vault_path@),
            match prefix {
                Some(p) => p@,
                None => Seq::empty(),
            },
        ).len(),
        r matches Some(v) ==> forall|i: int|
            0 <= i < v@.len() ==> (#[trigger] v@[i]).key@ == listed_hrefs(
                lines_of(text@),
                vault_prefix_text(vault_path@),
                match prefix {
                    Some(p) => p@,
                    None => Seq::empty(),
                },
            )[i] && v@[i].size == 0 && v@[i].updated_at == 0,
{
    let lines = split_lines(&to_chars(text));
    let open = to_chars("<d:href>");
    let mut i: usize = 0;
    while i < lines.len()
        invariant
            i <= lines@.len(),
            lines@.len() == lines_of(text@).len(),
            forall|k: int| 0 <= k < lines@.len() ==> (#[trigger] lines@[k])@ == lines_of(text@)[k],
            open@ == href_open(),
            forall|k: int| 0 <= k < i ==> line_readable(#[trigger] lines_of(text@)[k]),
        decreases lines@.len() - i,
    {
        let line = &lines[i];
        assert(line@ == lines_of(text@)[i as int]);
        match find_chars(line, &open, 0) {
            Some(s) => {
                proof {
                    reveal_strlit("<d:href>");
                    crate::text::lemma_find_from_props(line@, open@, 0);
                    assert(open@.len() == 8);
                    assert(crate::text::occurs_at(line@, open@, s as int));
                }
                let n = line.len();
                assert(s + 8 <= n);
                let ok = s + 8 < n && line[s + 8] <= '\u{7f}';
                if !ok {
                    assert(!line_readable(lines_of(text@)[i as int]));
                    return None;
                }
            },
            None => {},
        }
        i = i + 1;
    }
    Some(listed_files(text, vault_path, prefix))
}

} // verus!
