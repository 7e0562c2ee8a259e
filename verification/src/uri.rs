//! The library's own model of a URL.
//!
//! A [`Url`] holds the four components the pipeline reads — scheme,
//! authority, path and query — as plain strings. Parsing an arbitrary
//! string into these components is delegated to the `hyper` crate through
//! [`parse_url`]; everything that is computed *from* the components is
//! verified here.

use vstd::prelude::*;
use vstd::string::StrSliceExecFns;
use crate::strutil::{
    chars_range_to_string, lemma_split_last, lemma_split_none, spec_after_last, spec_before_last,
    str_chars, str_eq,
};

verus! {

/// A URL, split into the components the pipeline works with.
#[derive(Debug)]
pub struct Url {
    pub scheme: Option<String>,
    pub authority: Option<String>,
    pub path: String,
    pub query: Option<String>,
}

/// The mathematical value of a [`Url`]: each component as a character
/// sequence.
pub struct UrlView {
    pub scheme: Option<Seq<char>>,
    pub authority: Option<Seq<char>>,
    pub path: Seq<char>,
    pub query: Option<Seq<char>>,
}

impl View for Url {
    type V = UrlView;

    open spec fn view(&self) -> UrlView {
        UrlView {
            scheme: match self.scheme {
                Some(s) => Some(s@),
                None => None,
            },
            authority: match self.authority {
                Some(a) => Some(a@),
                None => None,
            },
            path: self.path@,
            query: match self.query {
                Some(q) => Some(q@),
                None => None,
            },
        }
    }
}

impl Clone for Url {
    fn clone(&self) -> (res: Self)
        ensures
            res@ == self@,
    {
        Url {
            scheme: match &self.scheme {
                Some(s) => Some(s.clone()),
                None => None,
            },
            authority: match &self.authority {
                Some(a) => Some(a.clone()),
                None => None,
            },
            path: self.path.clone(),
            query: match &self.query {
                Some(q) => Some(q.clone()),
                None => None,
            },
        }
    }
}

/// What the URI grammar of the `hyper` crate makes of a string: the four
/// components of the URL it denotes, or nothing when it denotes none.
pub uninterp spec fn uri_parts_of(s: Seq<char>) -> Option<UrlView>;

/// A string that does not denote a URL.
#[derive(Debug, Clone, PartialEq, Eq, Structural)]
pub struct UrlParseError;

/// Relies on `hyper::Uri::try_from` (the `http` crate's URI parser) to
/// split a string into scheme, authority, path and query; which strings
/// it accepts, and how it splits one, is `uri_parts_of`.
#[verifier::external_body]
pub fn parse_url(s: &str) -> (r: Result<Url, UrlParseError>)
    ensures
        (r is Ok) == (uri_parts_of(s@) is Some),
        r matches Ok(u) ==> Some(u@) == uri_parts_of(s@),
{
    match hyper::Uri::try_from(s) {
        Ok(u) => Ok(
            Url {
                scheme: u.scheme_str().map(|p| p.to_string()),
                authority: u.authority().map(|p| p.as_str().to_string()),
                path: u.path().to_string(),
                query: u.query().map(|p| p.to_string()),
            },
        ),
        Err(_) => Err(UrlParseError),
    }
}

/// Whether the pipeline knows how to fetch this URL: its scheme must be
/// `http` or `https`.
pub open spec fn spec_is_supported_scheme(u: UrlView) -> bool {
    u.scheme matches Some(s) && (s == "http"@ || s == "https"@)
}

/// Whether the transport supports the scheme of `uri`.
pub fn is_supported_scheme(uri: &Url) -> (r: bool)
    ensures
        r == spec_is_supported_scheme(uri@),
{
    match &uri.scheme {
        Some(s) => str_eq(s.as_str(), "http") || str_eq(s.as_str(), "https"),
        None => false,
    }
}

/// Whether `uri` has exactly the given authority.
pub fn is_proper_authority(uri: &Url, authority: &str) -> (r: bool)
    ensures
        r == (uri@.authority == Some(authority@)),
{
    match &uri.authority {
        Some(a) => str_eq(a.as_str(), authority),
        None => false,
    }
}

/// Whether a URL carries a path-and-query component at all.
pub open spec fn spec_has_path_and_query(u: UrlView) -> bool {
    u.path.len() > 0 || u.query is Some
}

/// Combine a possibly relative URL with a fallback: each missing component
/// of `main` is taken from `fallback`. The path and the query travel as one
/// component, as they do in a URL string.
pub fn merge_uris(main: &Url, fallback: &Url) -> (r: Url)
    ensures
        r@.scheme == if main@.scheme is Some {
            main@.scheme
        } else {
            fallback@.scheme
        },
        r@.authority == if main@.authority is Some {
            main@.authority
        } else {
            fallback@.authority
        },
        spec_has_path_and_query(main@) ==> r@.path == main@.path && r@.query == main@.query,
        !spec_has_path_and_query(main@) ==> r@.path == fallback@.path && r@.query
            == fallback@.query,
{
    let scheme = match &main.scheme {
        Some(s) => Some(s.clone()),
        None => match &fallback.scheme {
            Some(s) => Some(s.clone()),
            None => None,
        },
    };
    let authority = match &main.authority {
        Some(a) => Some(a.clone()),
        None => match &fallback.authority {
            Some(a) => Some(a.clone()),
            None => None,
        },
    };
    let main_has_pq = main.path.unicode_len() > 0 || main.query.is_some();
    let (path, query) = if main_has_pq {
        (
            main.path.clone(),
            match &main.query {
                Some(q) => Some(q.clone()),
                None => None,
            },
        )
    } else {
        (
            fallback.path.clone(),
            match &fallback.query {
                Some(q) => Some(q.clone()),
                None => None,
            },
        )
    };
    Url { scheme, authority, path, query }
}

/// A URL path with trailing separators removed.
pub open spec fn spec_strip_trailing_slashes(p: Seq<char>) -> Seq<char>
    decreases p.len(),
{
    if p.len() > 0 && p.last() == '/' {
        spec_strip_trailing_slashes(p.drop_last())
    } else {
        p
    }
}

/// The file-name component of a URL path: its last segment, with trailing
/// separators ignored; none when nothing remains.
pub open spec fn spec_file_name(p: Seq<char>) -> Option<Seq<char>> {
    let f = spec_after_last(spec_strip_trailing_slashes(p), '/');
    if f.len() == 0 {
        None
    } else {
        Some(f)
    }
}

/// The extension of a file name: what follows its last dot, none when
/// there is no dot or the dot is the leading character.
pub open spec fn spec_extension(f: Seq<char>) -> Option<Seq<char>> {
    if f.contains('.') && spec_before_last(f, '.').len() > 0 {
        Some(spec_after_last(f, '.'))
    } else {
        None
    }
}

/// The name of the file a downloaded image is stored under: the final
/// segment of its URL path, or nothing when the path has no segment.
pub fn image_file_name(uri: &Url) -> (r: Option<String>)
    ensures
        match r {
            Option::Some(name) => spec_file_name(uri@.path) == Some(name@),
            Option::None => spec_file_name(uri@.path) is None,
        },
{
    let chars = str_chars(uri.path.as_str());
    let ghost p = uri@.path;
    let mut end: usize = chars.len();
    proof {
        assert(p.take(p.len() as int) =~= p);
    }
    while end > 0 && chars[end - 1] == '/'
        invariant
            end <= chars@.len(),
            chars@ == p,
            spec_strip_trailing_slashes(p) == spec_strip_trailing_slashes(p.take(end as int)),
        decreases end,
    {
        proof {
            assert(p.take(end as int).drop_last() =~= p.take(end as int - 1));
        }
        end = end - 1;
    }
    proof {
        assert(p.take(end as int) =~= spec_strip_trailing_slashes(p));
    }
    let ghost t = spec_strip_trailing_slashes(p);
    let mut start: usize = end;
    while start > 0 && chars[start - 1] != '/'
        invariant
            start <= end <= chars@.len(),
            chars@ == p,
            forall|j: int| start <= j < end ==> p[j] != '/',
        decreases start,
    {
        start = start - 1;
    }
    proof {
        if start > 0 {
            lemma_split_last(t, '/', start - 1);
        } else {
            lemma_split_none(t, '/');
            assert(t.subrange(0, end as int) =~= t);
        }
    }
    if start == end {
        return None;
    }
    Some(chars_range_to_string(&chars, start, end))
}

/// Why a URL cannot serve as an image-page pattern.
#[derive(Debug, Clone, PartialEq, Eq, Structural)]
pub enum PatternError {
    /// The path has no parent to put numbered siblings into.
    NoParent,
    /// The path's file name has no extension to give them.
    NoExtension,
}

/// Split a pattern path into the parent part before its file name and
/// the extension of that file name, both needed to name the numbered
/// page files next to it.
#[verifier::rlimit(50)]
pub fn split_pattern_path(path: &str) -> (r: Result<(String, String), PatternError>)
    ensures
        ({
            let t = spec_strip_trailing_slashes(path@);
            match r {
                Result::Ok((parent, ext)) => {
                    &&& t.len() > 0
                    &&& parent@ == spec_before_last(t, '/')
                    &&& spec_extension(spec_after_last(t, '/')) == Some(ext@)
                },
                Result::Err(PatternError::NoParent) => t.len() == 0,
                Result::Err(PatternError::NoExtension) => t.len() > 0 && spec_extension(
                    spec_after_last(t, '/'),
                ) is None,
            }
        }),
{
    let chars = str_chars(path);
    let ghost p = path@;
    let mut end: usize = chars.len();
    proof {
        assert(p.take(p.len() as int) =~= p);
    }
    while end > 0 && chars[end - 1] == '/'
        invariant
            end <= chars@.len(),
            chars@ == p,
            spec_strip_trailing_slashes(p) == spec_strip_trailing_slashes(p.take(end as int)),
        decreases end,
    {
        proof {
            assert(p.take(end as int).drop_last() =~= p.take(end as int - 1));
        }
        end = end - 1;
    }
    proof {
        assert(p.take(end as int) =~= spec_strip_trailing_slashes(p));
    }
    let ghost t = spec_strip_trailing_slashes(p);
    if end == 0 {
        return Err(PatternError::NoParent);
    }
    let mut start: usize = end;
    while start > 0 && chars[start - 1] != '/'
        invariant
            start <= end <= chars@.len(),
            chars@ == p,
            forall|j: int| start <= j < end ==> p[j] != '/',
        decreases start,
    {
        start = start - 1;
    }
    let ghost f = spec_after_last(t, '/');
    proof {
        if start > 0 {
            lemma_split_last(t, '/', start - 1);
        } else {
            lemma_split_none(t, '/');
            assert(t.subrange(0, end as int) =~= t);
            assert(t.subrange(0, 0) =~= Seq::<char>::empty());
        }
        assert(f =~= t.subrange(start as int, end as int));
    }
    // the stripped path cannot end in a separator, so the file part is
    // nonempty
    let mut dot: usize = end;
    while dot > start && chars[dot - 1] != '.'
        invariant
            start <= dot <= end <= chars@.len(),
            chars@ == p,
            forall|j: int| dot <= j < end ==> p[j] != '.',
        decreases dot,
    {
        dot = dot - 1;
    }
    proof {
        if dot > start {
            lemma_split_last(f, '.', dot - 1 - start as int);
        } else {
            lemma_split_none(f, '.');
        }
    }
    if dot == start || dot == start + 1 {
        // no dot at all, or a dot leading the file name
        return Err(PatternError::NoExtension);
    }
    let parent = chars_range_to_string(&chars, 0, if start > 0 {
        start - 1
    } else {
        0
    });
    let ext = chars_range_to_string(&chars, dot, end);
    proof {
        assert(ext@ =~= f.subrange(dot - start as int, f.len() as int));
        let k = dot - 1 - start as int;
        assert(f.contains('.')) by {
            assert(0 <= k < f.len() && f[k] == '.');
        }
        assert(spec_before_last(f, '.') == f.subrange(0, k));
        assert(spec_after_last(f, '.') == f.subrange(dot - start as int, f.len() as int));
        if start > 0 {
            assert(parent@ =~= t.subrange(0, start as int - 1));
        } else {
            assert(parent@ =~= Seq::<char>::empty());
        }
    }
    Ok((parent, ext))
}

/// Return `uri` with its path guaranteed to end in a separator, appending
/// one if needed; all other components are kept.
pub fn with_trailing_slash(uri: &Url) -> (r: Url)
    ensures
        r@.scheme == uri@.scheme,
        r@.authority == uri@.authority,
        r@.query == uri@.query,
        uri@.path.len() > 0 && uri@.path.last() == '/' ==> r@.path == uri@.path,
        !(uri@.path.len() > 0 && uri@.path.last() == '/') ==> r@.path == uri@.path.push('/'),
        r@.path.len() > 0 && r@.path.last() == '/',
{
    let mut out = uri.clone();
    let n: usize = out.path.unicode_len();
    if n == 0 || out.path.as_str().get_char(n - 1) != '/' {
        out.path.push('/');
    }
    out
}

} // verus!
