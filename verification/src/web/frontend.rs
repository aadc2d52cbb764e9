//! Which embedded front-end file answers a request path, and how long it may be cached.
//!
//! The front end is built by SvelteKit's static adapter: `/` is served by
//! `index.html`, a prerendered page such as `/settings/status` by
//! `settings/status.html`, and any other page path without a file extension
//! falls back to `index.html`, so that the client-side router can handle it.
//! Paths below `_app/` and paths with an extension are files: when the build
//! has no such file the answer is 404.

use vstd::prelude::*;

verus! {

/// `s` without its leading slashes.
pub open spec fn trim_leading_slashes(s: Seq<char>) -> Seq<char>
    decreases s.len(),
{
    if s.len() > 0 && s[0] == '/' {
        trim_leading_slashes(s.drop_first())
    } else {
        s
    }
}

/// `s` without its trailing slashes.
pub open spec fn trim_trailing_slashes(s: Seq<char>) -> Seq<char>
    decreases s.len(),
{
    if s.len() > 0 && s.last() == '/' {
        trim_trailing_slashes(s.drop_last())
    } else {
        s
    }
}

/// The name of the file that a request path asks for: the path without its
/// leading slashes, or `index.html` for the root.
pub open spec fn requested_file(uri_path: Seq<char>) -> Seq<char> {
    let requested = trim_leading_slashes(uri_path);
    if requested.len() == 0 {
        "index.html"@
    } else {
        requested
    }
}

/// The prerendered page that stands for a file name without an extension.
pub open spec fn prerendered_page(file: Seq<char>) -> Seq<char> {
    trim_trailing_slashes(file) + ".html"@
}

/// Whether the embedded files include `name`.
pub open spec fn has_asset(assets: Seq<String>, name: Seq<char>) -> bool {
    exists|i: int| 0 <= i < assets.len() && #[trigger] assets[i]@ == name
}

/// The embedded file that answers `uri_path`, if any: the requested file
/// itself; else, for a name without an extension, its prerendered page; else,
/// for a page path (no extension, not below `_app/`), `index.html`.
pub open spec fn resolve_asset(uri_path: Seq<char>, assets: Seq<String>) -> Option<Seq<char>> {
    let file = requested_file(uri_path);
    let page = prerendered_page(file);
    if has_asset(assets, file) {
        Some(file)
    } else if !file.contains('.') && has_asset(assets, page) {
        Some(page)
    } else if !"_app/"@.is_prefix_of(file) && !file.contains('.') && has_asset(
        assets,
        "index.html"@,
    ) {
        Some("index.html"@)
    } else {
        None
    }
}

/// The `Cache-Control` value for an embedded file: HTML is always revalidated,
/// the hashed files below `_app/immutable/` are kept for a year, the rest for an hour.
pub open spec fn cache_policy(path: Seq<char>) -> Seq<char> {
    if ".html"@.is_suffix_of(path) {
        "no-cache"@
    } else if "_app/immutable/"@.is_prefix_of(path) {
        "public, max-age=31536000, immutable"@
    } else {
        "public, max-age=3600"@
    }
}

/// How request paths are answered:
/// - a requested file that the build contains is served as itself;
/// - only files of the build are ever served;
/// - a name with an extension is answered by itself or not at all;
/// - below `_app/`, a missing file and a missing prerendered page give 404,
///   never the application entry;
/// - every page path (no extension, not below `_app/`) is answered when the
///   build has `index.html`;
/// - whatever stands in for the requested file (a prerendered page or the
///   entry) is HTML, and HTML is never cached without revalidation.
pub proof fn lemma_frontend_resolution(uri_path: Seq<char>, assets: Seq<String>)
    ensures
        has_asset(assets, requested_file(uri_path)) ==> resolve_asset(uri_path, assets) == Some(
            requested_file(uri_path),
        ),
        resolve_asset(uri_path, assets) matches Some(name) ==> has_asset(assets, name),
        requested_file(uri_path).contains('.') ==> resolve_asset(uri_path, assets) == Some(
            requested_file(uri_path),
        ) || resolve_asset(uri_path, assets) is None,
        "_app/"@.is_prefix_of(requested_file(uri_path)) && !has_asset(
            assets,
            requested_file(uri_path),
        ) && !has_asset(assets, prerendered_page(requested_file(uri_path))) ==> resolve_asset(
            uri_path,
            assets,
        ) is None,
        !requested_file(uri_path).contains('.') && !"_app/"@.is_prefix_of(
            requested_file(uri_path),
        ) && has_asset(assets, "index.html"@) ==> resolve_asset(uri_path, assets) is Some,
        resolve_asset(uri_path, assets) matches Some(name) ==> (name != requested_file(uri_path)
            ==> cache_policy(name) == "no-cache"@),
{
    reveal_strlit("index.html");
    reveal_strlit(".html");
    let file = requested_file(uri_path);
    let page = prerendered_page(file);
    assert(".html"@.is_suffix_of(page)) by {
        assert(".html"@ =~= page.subrange(page.len() - 5, page.len() as int));
    }
    assert(".html"@.is_suffix_of("index.html"@)) by {
        assert(".html"@ =~= "index.html"@.subrange(5, 10));
    }
}

/// The order of the answers: a file of the build is served as itself; a name
/// without an extension that is not a file is served by its prerendered page,
/// the name without trailing slashes followed by `.html`, whenever the build
/// has it, at the top level as well as deeper; otherwise a page path (no
/// extension, not below `_app/`) is served by `index.html` when the build has
/// it; anything else is not found.
pub proof fn lemma_resolution_order(uri_path: Seq<char>, assets: Seq<String>)
    ensures
        ({
            let file = requested_file(uri_path);
            let page = trim_trailing_slashes(file) + ".html"@;
            &&& has_asset(assets, file) ==> resolve_asset(uri_path, assets) == Some(file)
            &&& !has_asset(assets, file) && !file.contains('.') && has_asset(assets, page)
                ==> resolve_asset(uri_path, assets) == Some(page)
            &&& !has_asset(assets, file) && !file.contains('.') && !has_asset(assets, page)
                && !"_app/"@.is_prefix_of(file) && has_asset(assets, "index.html"@)
                ==> resolve_asset(uri_path, assets) == Some("index.html"@)
            &&& !has_asset(assets, file) && (file.contains('.') || !has_asset(assets, page))
                && (file.contains('.') || "_app/"@.is_prefix_of(file) || !has_asset(
                assets,
                "index.html"@,
            )) ==> resolve_asset(uri_path, assets) is None
        }),
{
}

/// HTML is always revalidated; every other file below `_app/immutable/`,
/// whatever its extension, is kept for a year; any other file for an hour.
pub proof fn lemma_cache_policy_by_path(path: Seq<char>)
    ensures
        ".html"@.is_suffix_of(path) ==> cache_policy(path) == "no-cache"@,
        !".html"@.is_suffix_of(path) && "_app/immutable/"@.is_prefix_of(path) ==> cache_policy(
            path,
        ) == "public, max-age=31536000, immutable"@,
        !".html"@.is_suffix_of(path) && !"_app/immutable/"@.is_prefix_of(path) ==> cache_policy(
            path,
        ) == "public, max-age=3600"@,
{
}

/// The number of leading slashes of `s`.
fn leading_slashes(s: &str) -> (k: usize)
    ensures
        k <= s@.len(),
        trim_leading_slashes(s@) == s@.subrange(k as int, s@.len() as int),
{
    let n = s.unicode_len();
    let mut i: usize = 0;
    assert(s@.subrange(0, n as int) =~= s@);
    while i < n && s.get_char(i) == '/'
        invariant
            n == s@.len(),
            i <= n,
            trim_leading_slashes(s@) == trim_leading_slashes(s@.subrange(i as int, n as int)),
        decreases n - i,
    {
        assert(s@.subrange(i as int, n as int).drop_first() =~= s@.subrange(
            i + 1,
            n as int,
        ));
        i = i + 1;
    }
    i
}

/// The length of `s` once its trailing slashes are removed.
fn without_trailing_slashes(s: &str) -> (k: usize)
    ensures
        k <= s@.len(),
        trim_trailing_slashes(s@) == s@.subrange(0, k as int),
{
    let n = s.unicode_len();
    let mut j: usize = n;
    assert(s@.subrange(0, n as int) =~= s@);
    while j > 0 && s.get_char(j - 1) == '/'
        invariant
            n == s@.len(),
            j <= n,
            trim_trailing_slashes(s@) == trim_trailing_slashes(s@.subrange(0, j as int)),
        decreases j,
    {
        assert(s@.subrange(0, j as int).drop_last() =~= s@.subrange(0, j - 1));
        j = j - 1;
    }
    j
}

/// Whether `s` holds the character `c`.
fn has_char(s: &str, c: char) -> (r: bool)
    ensures
        r == s@.contains(c),
{
    let n = s.unicode_len();
    let mut i: usize = 0;
    while i < n
        invariant
            n == s@.len(),
            i <= n,
            forall|j: int| 0 <= j < i ==> s@[j] != c,
        decreases n - i,
    {
        if s.get_char(i) == c {
            return true;
        }
        i = i + 1;
    }
    false
}

/// Whether `s` begins with `prefix`.
fn starts_with(s: &str, prefix: &str) -> (r: bool)
    ensures
        r == prefix@.is_prefix_of(s@),
{
    let n = s.unicode_len();
    let m = prefix.unicode_len();
    if m > n {
        return false;
    }
    let mut i: usize = 0;
    while i < m
        invariant
            n == s@.len(),
            m == prefix@.len(),
            m <= n,
            i <= m,
            forall|j: int| 0 <= j < i ==> s@[j] == prefix@[j],
        decreases m - i,
    {
        if s.get_char(i) != prefix.get_char(i) {
            assert(prefix@[i as int] != s@.subrange(0, m as int)[i as int]);
            return false;
        }
        i = i + 1;
    }
    assert(prefix@ =~= s@.subrange(0, m as int));
    true
}

/// Whether `s` ends with `suffix`.
fn ends_with(s: &str, suffix: &str) -> (r: bool)
    ensures
        r == suffix@.is_suffix_of(s@),
{
    let n = s.unicode_len();
    let m = suffix.unicode_len();
    if m > n {
        return false;
    }
    let d = n - m;
    let mut i: usize = 0;
    while i < m
        invariant
            n == s@.len(),
            m == suffix@.len(),
            m <= n,
            d == n - m,
            i <= m,
            forall|j: int| 0 <= j < i ==> s@[d + j] == suffix@[j],
        decreases m - i,
    {
        if s.get_char(d + i) != suffix.get_char(i) {
            assert(suffix@[i as int] != s@.subrange(d as int, n as int)[i as int]);
            return false;
        }
        i = i + 1;
    }
    assert(suffix@ =~= s@.subrange(d as int, n as int));
    true
}

/// Whether the embedded files include `name`.
fn contains_asset(assets: &Vec<String>, name: &String) -> (r: bool)
    ensures
        r == has_asset(assets@, name@),
{
    let mut i: usize = 0;
    while i < assets.len()
        invariant
            i <= assets@.len(),
            forall|j: int| 0 <= j < i ==> assets@[j]@ != name@,
        decreases assets@.len() - i,
    {
        if assets[i] == *name {
            return true;
        }
        i = i + 1;
    }
    false
}

/// The embedded file that answers the request path `uri_path`, given the
/// names of all embedded files; `None` when the answer is 404.
pub fn resolve_frontend_asset(uri_path: &str, assets: &Vec<String>) -> (r: Option<String>)
    ensures
        match r {
            Some(name) => resolve_asset(uri_path@, assets@) == Some(name@),
            None => resolve_asset(uri_path@, assets@) is None,
        },
{
    let n = uri_path.unicode_len();
    let k = leading_slashes(uri_path);
    let requested = uri_path.substring_char(k, n);
    let file: String = if requested.unicode_len() == 0 {
        String::from_str("index.html")
    } else {
        String::from_str(requested)
    };
    assert(file@ == requested_file(uri_path@));
    if contains_asset(assets, &file) {
        return Some(file);
    }
    let file_has_dot = has_char(file.as_str(), '.');
    let trimmed_len = without_trailing_slashes(file.as_str());
    let trimmed = file.as_str().substring_char(0, trimmed_len);
    let page = String::from_str(trimmed).concat(".html");
    assert(page@ == prerendered_page(file@));
    if !file_has_dot && contains_asset(assets, &page) {
        return Some(page);
    }
    let index = String::from_str("index.html");
    if !starts_with(file.as_str(), "_app/") && !file_has_dot && contains_asset(assets, &index) {
        return Some(index);
    }
    None
}

/// The `Cache-Control` header value for the embedded file `path`.
pub fn cache_control(path: &str) -> (r: &'static str)
    ensures
        r@ == cache_policy(path@),
{
    if ends_with(path, ".html") {
        "no-cache"
    } else if starts_with(path, "_app/immutable/") {
        "public, max-age=31536000, immutable"
    } else {
        "public, max-age=3600"
    }
}

} // verus!
