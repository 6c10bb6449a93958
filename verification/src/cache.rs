//! The image cache: a directory of files named by the trailing path segment
//! of each image URL.
//!
//! The cache holds no in-memory index: a file's presence at the derived path
//! is the only cache-hit signal. The logic here derives the file name and
//! path, decides whether a request is a hit or needs a fetch, and settles
//! what a finished fetch returns. Checking and writing the files themselves
//! is the caller's side of the boundary; it hands in plain values (does the
//! file exist, did the fetch succeed) and performs the decided action.

use vstd::prelude::*;

verus! {

/// Why an image could not be cached.
#[derive(Clone, Copy, Debug, PartialEq, Eq, Structural)]
pub enum CacheError {
    /// The image download failed on a transport problem.
    FetchFailed,
}

/// The file name used when a URL is empty or holds no `/` at all.
pub open spec fn fallback_name() -> Seq<char> {
    "couldnt find name of image"@
}

/// The directory every cached image is stored under, with its trailing
/// separator.
pub open spec fn cache_dir() -> Seq<char> {
    "/tmp/raspi-pi-reader/"@
}

/// The position of the last `/` among the first `n` characters of `s`,
/// or `-1` when there is none.
pub open spec fn last_slash(s: Seq<char>, n: int) -> int
    decreases n,
{
    if n <= 0 {
        -1
    } else if s[n - 1] == '/' {
        n - 1
    } else {
        last_slash(s, n - 1)
    }
}

/// The file name derived from an image URL: the substring after the last
/// `/`, or the fixed fallback name when the URL is empty or has no `/`.
pub open spec fn spec_filename(url: Seq<char>) -> Seq<char> {
    let k = last_slash(url, url.len() as int);
    if k < 0 {
        fallback_name()
    } else {
        url.subrange(k + 1, url.len() as int)
    }
}

/// The local path an image URL is cached at: the cache directory followed
/// by the derived file name.
pub open spec fn spec_cache_path(url: Seq<char>) -> Seq<char> {
    cache_dir() + spec_filename(url)
}

/// Derives the cache file name for an image URL: everything after the last
/// `/`, or the fixed fallback name when the URL is empty or has no `/`.
pub fn derive_filename(url: &str) -> (r: String)
    ensures
        r@ == spec_filename(url@),
{
    let n = url.unicode_len();
    let mut i = n;
    while i > 0
        invariant
            i <= n,
            n == url@.len(),
            last_slash(url@, n as int) == last_slash(url@, i as int),
        decreases i,
    {
        if url.get_char(i - 1) == '/' {
            assert(last_slash(url@, i as int) == i - 1);
            let tail = url.substring_char(i, n);
            return tail.to_owned();
        }
        i = i - 1;
    }
    assert(last_slash(url@, url@.len() as int) == -1);
    String::from_str("couldnt find name of image")
}

/// Builds the local cache path for an image URL.
pub fn cache_path(url: &str) -> (r: String)
    ensures
        r@ == spec_cache_path(url@),
{
    let name = derive_filename(url);
    let base = String::from_str("/tmp/raspi-pi-reader/");
    base.concat(name.as_str())
}

/// How the cache answers one request: the file at the derived path already
/// exists and is handed back as is, or the image must still be fetched and
/// stored at that path.
pub enum CacheDecision {
    /// The derived path already exists: return it, fetch nothing.
    Hit(String),
    /// No file at the derived path yet: fetch the URL and store the body
    /// there.
    Fetch(String),
}

/// Decides how the cache answers for `url`, given whether a file already
/// stands at the derived path. A hit returns that path and performs no
/// fetch; otherwise the image is to be fetched and written to the path.
pub fn cache_decision(url: &str, file_exists: bool) -> (r: CacheDecision)
    ensures
        file_exists ==> (r matches CacheDecision::Hit(p) && p@ == spec_cache_path(url@)),
        !file_exists ==> (r matches CacheDecision::Fetch(p) && p@ == spec_cache_path(url@)),
{
    let path = cache_path(url);
    if file_exists {
        CacheDecision::Hit(path)
    } else {
        CacheDecision::Fetch(path)
    }
}

/// Settles a resolution that needed a fetch: a successful download was
/// written to `path`, which is returned; a transport failure is the
/// cache's one error.
pub fn fetch_outcome(path: String, fetch_ok: bool) -> (r: Result<String, CacheError>)
    ensures
        fetch_ok ==> r == Ok::<String, CacheError>(path),
        !fetch_ok ==> r == Err::<String, CacheError>(CacheError::FetchFailed),
{
    if fetch_ok {
        Ok(path)
    } else {
        Err(CacheError::FetchFailed)
    }
}

/// Everything one resolution leaves behind, over the model of the cache
/// directory as the set of paths that exist: the directory afterwards,
/// whether a network fetch was performed, and what the caller got back.
pub struct Resolution {
    pub files: Set<Seq<char>>,
    pub fetched: bool,
    pub result: Result<Seq<char>, CacheError>,
}

/// One resolution of `url` against a cache directory holding `files`: a
/// present file is a hit and is returned without a fetch; otherwise the
/// URL is fetched, and either the stored path comes back or the one
/// transport error, leaving the directory unchanged.
pub open spec fn spec_resolve(files: Set<Seq<char>>, url: Seq<char>, fetch_ok: bool) -> Resolution {
    let path = spec_cache_path(url);
    if files.contains(path) {
        Resolution { files, fetched: false, result: Ok(path) }
    } else if fetch_ok {
        Resolution { files: files.insert(path), fetched: true, result: Ok(path) }
    } else {
        Resolution { files, fetched: true, result: Err(CacheError::FetchFailed) }
    }
}

/// Resolving the same URL twice performs exactly one fetch: after any
/// successful resolution, the derived path exists, so a second resolution
/// of that URL fetches nothing, returns the same path, and leaves the
/// cache directory unchanged — whatever the network would have answered.
pub proof fn lemma_cache_idempotent(
    files: Set<Seq<char>>,
    url: Seq<char>,
    fetch_ok: bool,
    again_ok: bool,
)
    requires
        spec_resolve(files, url, fetch_ok).result is Ok,
    ensures
        ({
            let first = spec_resolve(files, url, fetch_ok);
            let second = spec_resolve(first.files, url, again_ok);
            &&& !second.fetched
            &&& second.result == first.result
            &&& second.files == first.files
        }),
{
}

} // verus!
