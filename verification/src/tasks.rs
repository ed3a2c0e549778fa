//! Text computations of the developer tasks: download addresses, database
//! backup paths, and paths shown relative to the workspace.
use vstd::prelude::*;

verus! {

/// Where the wifi chip's firmware files are downloaded from.
pub const BASE_URL: &'static str = "https://raw.githubusercontent.com/Infineon/wifi-host-driver/refs/tags/latest-v3.X/WiFi_Host_Driver/resources/";

/// The download address of a firmware file: the file's path appended to
/// [`BASE_URL`].
pub fn get_download_url(file_url: &str) -> (url: String)
    ensures
        url@ == BASE_URL@ + file_url@,
{
    let mut url = String::from_str(BASE_URL);
    url.append(file_url);
    url
}

/// Position of the first `:` in `s` at or after `from`, if any.
pub open spec fn colon_at_or_after(s: Seq<char>, from: nat) -> Option<nat>
    decreases s.len() - from,
{
    if from >= s.len() {
        None
    } else if s[from as int] == ':' {
        Some(from)
    } else {
        colon_at_or_after(s, from + 1)
    }
}

/// The second `:`-separated field of a database URL (its path), if the URL
/// has a `:` at all.
pub open spec fn url_path(url: Seq<char>) -> Option<Seq<char>> {
    match colon_at_or_after(url, 0) {
        None => None,
        Some(i) => match colon_at_or_after(url, i + 1) {
            None => Some(url.subrange(i + 1int, url.len() as int)),
            Some(j) => Some(url.subrange(i + 1int, j as int)),
        },
    }
}

/// Finds the first `:` at or after `from`.
fn find_colon(s: &str, from: usize) -> (r: Option<usize>)
    requires
        from <= s@.len(),
    ensures
        match r {
            None => colon_at_or_after(s@, from as nat) is None,
            Some(i) => colon_at_or_after(s@, from as nat) == Some(i as nat) && from <= i < s@.len(),
        },
    decreases s@.len() - from,
{
    let len = s.unicode_len();
    if from >= len {
        return None;
    }
    if s.get_char(from) == ':' {
        Some(from)
    } else {
        find_colon(s, from + 1)
    }
}

/// The path of a database URL and the path its backup is moved to (the path
/// with `.bak` appended); `None` when the URL has no `:`.
pub fn database_backup_paths(url: &str) -> (r: Option<(String, String)>)
    ensures
        match url_path(url@) {
            None => r is None,
            Some(p) => r matches Some((path, backup)) && path@ == p && backup@ == p + ".bak"@,
        },
{
    let len = url.unicode_len();
    let first = match find_colon(url, 0) {
        None => return None,
        Some(i) => i,
    };
    let end = match find_colon(url, first + 1) {
        None => len,
        Some(j) => j,
    };
    let path = String::from_str(url.substring_char(first + 1, end));
    let mut backup = String::from_str(url.substring_char(first + 1, end));
    backup.append(".bak");
    Some((path, backup))
}

/// What `camino::Utf8Path::strip_prefix` leaves of `path` after the whole
/// leading components `base`, if `base` is such a prefix.
pub uninterp spec fn stripped_path(path: Seq<char>, base: Seq<char>) -> Option<Seq<char>>;

/// `Utf8Path::new(path).strip_prefix(base)`, as text.
///
/// Trusted: camino 1.2.6 defers to `std::path::Path::strip_prefix`, which
/// compares whole components; the result is named, not stated, and depends
/// on `path` and `base` alone (on this Unix target).
#[verifier::external_body]
fn strip_prefix(path: &str, base: &str) -> (r: Option<String>)
    ensures
        match r {
            None => stripped_path(path@, base@) is None,
            Some(s) => stripped_path(path@, base@) == Some(s@),
        },
{
    match camino::Utf8Path::new(path).strip_prefix(base) {
        Ok(p) => Some(p.as_str().to_string()),
        Err(_) => None,
    }
}

/// `path` relative to the workspace directory when it lies inside it, else
/// `path` unchanged.
pub fn strip_cargo_dir(workspace: &str, path: &str) -> (r: String)
    ensures
        r@ == match stripped_path(path@, workspace@) {
            Some(s) => s,
            None => path@,
        },
{
    match strip_prefix(path, workspace) {
        Some(s) => s,
        None => String::from_str(path),
    }
}

} // verus!
