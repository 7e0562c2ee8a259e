//! The site-facing side of the pipeline.
//!
//! Each supported site contributes a matcher deciding whether a gallery
//! URL belongs to it; the first matching site, in a fixed priority order,
//! wins. The path grammars the sites accept are spelled out here and the
//! matchers are verified against them. What a site's pages *contain* —
//! the HTML that names the title, the page count and the image pattern —
//! is the business of unverified collaborators; their findings come back
//! into the library as plain values.

use vstd::prelude::*;
use vstd::string::{StrSliceExecFns, StringExecFns};
use crate::strutil::{
    is_digit, parse_usize_range, push_dec_digits, spec_after_last, spec_all_digits,
    spec_before_last, spec_dec_digits, spec_dec_value, spec_digits_part, spec_is_digit, str_chars,
    str_eq,
};
use crate::uri::{
    is_proper_authority, is_supported_scheme, spec_extension, spec_is_supported_scheme,
    spec_strip_trailing_slashes, split_pattern_path, parse_url, uri_parts_of, PatternError,
    Url, UrlView,
};

verus! {

/// One message of the gallery-discovery stream: the title (exactly once,
/// first), batches of image URLs, or a terminal error.
pub enum Msg {
    Title(String),
    Images(Vec<Url>),
    Error(String),
}

/// What a gallery's listing page announces about it.
pub struct GalleryInfo {
    pub pages_count: usize,
    pub title: String,
}

/// Whether a character is a hexadecimal digit.
pub open spec fn spec_is_hex_digit(c: char) -> bool {
    spec_is_digit(c) || (97 <= c as u32 <= 102) || (65 <= c as u32 <= 70)
}

/// Whether a character is a hexadecimal digit.
pub fn is_hex_digit(c: char) -> (r: bool)
    ensures
        r == spec_is_hex_digit(c),
{
    let u = c as u32;
    is_digit(c) || (97 <= u && u <= 102) || (65 <= u && u <= 70)
}

/// The end of the run of decimal digits starting at `i`.
pub open spec fn spec_digits_end(p: Seq<char>, i: int) -> int
    decreases p.len() - i,
{
    if 0 <= i < p.len() && spec_is_digit(p[i]) {
        spec_digits_end(p, i + 1)
    } else {
        i
    }
}

/// The end of the run of hexadecimal digits starting at `i`.
pub open spec fn spec_hex_end(p: Seq<char>, i: int) -> int
    decreases p.len() - i,
{
    if 0 <= i < p.len() && spec_is_hex_digit(p[i]) {
        spec_hex_end(p, i + 1)
    } else {
        i
    }
}

/// Whether `pre` is a prefix of `p`.
pub open spec fn spec_starts_with(p: Seq<char>, pre: Seq<char>) -> bool {
    p.len() >= pre.len() && p.subrange(0, pre.len() as int) == pre
}

fn digits_end(v: &Vec<char>, from: usize) -> (r: usize)
    requires
        from <= v@.len(),
    ensures
        from <= r <= v@.len(),
        r == spec_digits_end(v@, from as int),
{
    let mut i: usize = from;
    while i < v.len() && is_digit(v[i])
        invariant
            from <= i <= v@.len(),
            spec_digits_end(v@, from as int) == spec_digits_end(v@, i as int),
        decreases v@.len() - i,
    {
        i = i + 1;
    }
    i
}

fn hex_end(v: &Vec<char>, from: usize) -> (r: usize)
    requires
        from <= v@.len(),
    ensures
        from <= r <= v@.len(),
        r == spec_hex_end(v@, from as int),
{
    let mut i: usize = from;
    while i < v.len() && is_hex_digit(v[i])
        invariant
            from <= i <= v@.len(),
            spec_hex_end(v@, from as int) == spec_hex_end(v@, i as int),
        decreases v@.len() - i,
    {
        i = i + 1;
    }
    i
}

/// The gallery path grammar shared by two of the sites: a fixed prefix,
/// a nonempty run of digits, and an optional closing separator.
pub open spec fn spec_prefixed_id_path(p: Seq<char>, pre: Seq<char>) -> bool {
    let d = spec_digits_end(p, pre.len() as int);
    &&& spec_starts_with(p, pre)
    &&& d > pre.len()
    &&& (d == p.len() || (p[d] == '/' && d + 1 == p.len()))
}

/// The gallery path grammar of the e-hentai site: a prefix, a nonempty
/// decimal gallery id, a separator, a nonempty hexadecimal token, and an
/// optional closing separator.
pub open spec fn spec_ehentai_path(p: Seq<char>) -> bool {
    let d = spec_digits_end(p, 3);
    let h = spec_hex_end(p, d + 1);
    &&& spec_starts_with(p, "/g/"@)
    &&& d > 3
    &&& d < p.len() && p[d] == '/'
    &&& h > d + 1
    &&& (h == p.len() || (p[h] == '/' && h + 1 == p.len()))
}

/// Check a prefixed-id path against its grammar.
fn prefixed_id_path_match(path: &str, pre: &str) -> (r: bool)
    ensures
        r == spec_prefixed_id_path(path@, pre@),
{
    let v = str_chars(path);
    let n: usize = pre.unicode_len();
    if v.len() < n {
        return false;
    }
    let head = path.substring_char(0, n);
    if !str_eq(head, pre) {
        return false;
    }
    let d = digits_end(&v, n);
    if d == n {
        return false;
    }
    if d == v.len() {
        return true;
    }
    v[d] == '/' && d + 1 == v.len()
}

/// Check a path against the e-hentai grammar.
fn ehentai_path_match(path: &str) -> (r: bool)
    ensures
        r == spec_ehentai_path(path@),
{
    let v = str_chars(path);
    if v.len() < 3 {
        proof {
            reveal_strlit("/g/");
        }
        return false;
    }
    let head = path.substring_char(0, 3);
    if !str_eq(head, "/g/") {
        proof {
            reveal_strlit("/g/");
        }
        return false;
    }
    let d = digits_end(&v, 3);
    if d == 3 || d == v.len() || v[d] != '/' {
        return false;
    }
    let h = hex_end(&v, d + 1);
    if h == d + 1 {
        return false;
    }
    if h == v.len() {
        return true;
    }
    v[h] == '/' && h + 1 == v.len()
}

/// The e-hentai site: galleries under `/g/<id>/<token>/`, paginated
/// listings, and image pages that need a second fetch per image.
pub struct Ehentai {}

/// Whether a URL is an e-hentai gallery: supported scheme, the site's
/// authority, and its gallery path grammar.
pub open spec fn spec_ehentai_gallery_match(u: UrlView) -> bool {
    &&& spec_is_supported_scheme(u)
    &&& u.authority == Some("e-hentai.org"@)
    &&& spec_ehentai_path(u.path)
}

impl Ehentai {
    pub fn new() -> (r: Ehentai) {
        Ehentai {  }
    }

    /// The site's display name.
    pub fn name(&self) -> (r: &'static str)
        ensures
            r@ == "Ehentai"@,
    {
        "Ehentai"
    }

    /// Whether this site's rules apply to `gallery`.
    pub fn is_gallery_match(&self, gallery: &Url) -> (r: bool)
        ensures
            r == spec_ehentai_gallery_match(gallery@),
    {
        is_supported_scheme(gallery) && is_proper_authority(gallery, "e-hentai.org")
            && ehentai_path_match(gallery.path.as_str())
    }
}

/// The imhentai site: galleries under `/gallery/<id>/`, with one listing
/// page naming a page count and an image URL pattern.
pub struct Imhentai {}

/// Whether a URL is an imhentai gallery.
pub open spec fn spec_imhentai_gallery_match(u: UrlView) -> bool {
    &&& spec_is_supported_scheme(u)
    &&& u.authority == Some("imhentai.xxx"@)
    &&& spec_prefixed_id_path(u.path, "/gallery/"@)
}

impl Imhentai {
    pub fn new() -> (r: Imhentai) {
        Imhentai {  }
    }

    /// The site's display name.
    pub fn name(&self) -> (r: &'static str)
        ensures
            r@ == "Imhentai"@,
    {
        "Imhentai"
    }

    /// Whether this site's rules apply to `gallery`.
    pub fn is_gallery_match(&self, gallery: &Url) -> (r: bool)
        ensures
            r == spec_imhentai_gallery_match(gallery@),
    {
        is_supported_scheme(gallery) && is_proper_authority(gallery, "imhentai.xxx")
            && prefixed_id_path_match(gallery.path.as_str(), "/gallery/")
    }
}

/// The nhentai site: galleries under `/g/<id>/`, with one listing page
/// naming a page count and an image URL pattern.
pub struct Nhentai {}

/// Whether a URL is an nhentai gallery.
pub open spec fn spec_nhentai_gallery_match(u: UrlView) -> bool {
    &&& spec_is_supported_scheme(u)
    &&& u.authority == Some("nhentai.net"@)
    &&& spec_prefixed_id_path(u.path, "/g/"@)
}

impl Nhentai {
    pub fn new() -> (r: Nhentai) {
        Nhentai {  }
    }

    /// The site's display name.
    pub fn name(&self) -> (r: &'static str)
        ensures
            r@ == "Nhentai"@,
    {
        "Nhentai"
    }

    /// Whether this site's rules apply to `gallery`.
    pub fn is_gallery_match(&self, gallery: &Url) -> (r: bool)
        ensures
            r == spec_nhentai_gallery_match(gallery@),
    {
        is_supported_scheme(gallery) && is_proper_authority(gallery, "nhentai.net")
            && prefixed_id_path_match(gallery.path.as_str(), "/g/")
    }
}

/// One of the supported sites.
#[derive(Debug, Clone, Copy, PartialEq, Eq, Structural)]
pub enum SiteKind {
    Imhentai,
    Ehentai,
    Nhentai,
}

/// Whether the given site's rules apply to a URL.
pub open spec fn spec_site_matches(site: SiteKind, u: UrlView) -> bool {
    match site {
        SiteKind::Imhentai => spec_imhentai_gallery_match(u),
        SiteKind::Ehentai => spec_ehentai_gallery_match(u),
        SiteKind::Nhentai => spec_nhentai_gallery_match(u),
    }
}

/// The fixed priority order in which sites are tried.
pub open spec fn spec_downloader_order() -> Seq<SiteKind> {
    seq![SiteKind::Imhentai, SiteKind::Ehentai, SiteKind::Nhentai]
}

/// All supported sites, in the order their matchers are tried.
pub fn downloaders() -> (v: Vec<SiteKind>)
    ensures
        v@ == spec_downloader_order(),
{
    let mut v: Vec<SiteKind> = Vec::new();
    v.push(SiteKind::Imhentai);
    v.push(SiteKind::Ehentai);
    v.push(SiteKind::Nhentai);
    proof {
        assert(v@ =~= spec_downloader_order());
    }
    v
}

/// Whether the given site's rules apply to `gallery`.
pub fn site_matches(site: SiteKind, gallery: &Url) -> (r: bool)
    ensures
        r == spec_site_matches(site, gallery@),
{
    match site {
        SiteKind::Imhentai => Imhentai::new().is_gallery_match(gallery),
        SiteKind::Ehentai => Ehentai::new().is_gallery_match(gallery),
        SiteKind::Nhentai => Nhentai::new().is_gallery_match(gallery),
    }
}

/// The first site, in priority order, whose rules apply to a URL.
pub open spec fn spec_find_downloader(u: UrlView) -> Option<SiteKind> {
    if spec_imhentai_gallery_match(u) {
        Some(SiteKind::Imhentai)
    } else if spec_ehentai_gallery_match(u) {
        Some(SiteKind::Ehentai)
    } else if spec_nhentai_gallery_match(u) {
        Some(SiteKind::Nhentai)
    } else {
        None
    }
}

/// Select the site responsible for `gallery`: the first match in priority
/// order wins; none means the run fails with a missing-downloader error.
pub fn find_downloader(gallery: &Url) -> (r: Option<SiteKind>)
    ensures
        r == spec_find_downloader(gallery@),
{
    if Imhentai::new().is_gallery_match(gallery) {
        Some(SiteKind::Imhentai)
    } else if Ehentai::new().is_gallery_match(gallery) {
        Some(SiteKind::Ehentai)
    } else if Nhentai::new().is_gallery_match(gallery) {
        Some(SiteKind::Nhentai)
    } else {
        None
    }
}

/// Whether a character counts as spacing between a label and its value.
pub open spec fn spec_is_space(c: char) -> bool {
    c == ' ' || c == '\t' || c == '\n' || c == '\r' || (c as u32 == 11) || (c as u32 == 12)
}

/// Whether a character counts as spacing between a label and its value.
pub fn is_space(c: char) -> (r: bool)
    ensures
        r == spec_is_space(c),
{
    let u = c as u32;
    c == ' ' || c == '\t' || c == '\n' || c == '\r' || u == 11 || u == 12
}

/// The end of the run of spacing characters starting at `i`.
pub open spec fn spec_space_end(p: Seq<char>, i: int) -> int
    decreases p.len() - i,
{
    if 0 <= i < p.len() && spec_is_space(p[i]) {
        spec_space_end(p, i + 1)
    } else {
        i
    }
}

fn space_end(v: &Vec<char>, from: usize) -> (r: usize)
    requires
        from <= v@.len(),
    ensures
        from <= r <= v@.len(),
        r == spec_space_end(v@, from as int),
{
    let mut i: usize = from;
    while i < v.len() && is_space(v[i])
        invariant
            from <= i <= v@.len(),
            spec_space_end(v@, from as int) == spec_space_end(v@, i as int),
        decreases v@.len() - i,
    {
        i = i + 1;
    }
    i
}

/// Everything in a digit run up to its end is a digit.
proof fn lemma_digits_end_run(p: Seq<char>, i: int)
    requires
        0 <= i <= p.len(),
    ensures
        i <= spec_digits_end(p, i) <= p.len(),
        forall|j: int| i <= j < spec_digits_end(p, i) ==> spec_is_digit(p[j]),
    decreases p.len() - i,
{
    if i < p.len() && spec_is_digit(p[i]) {
        lemma_digits_end_run(p, i + 1);
    }
}

/// Whether a page-count label starts at `i`: the word `Pages:`, at least
/// one spacing character, then at least one digit.
pub open spec fn spec_pages_label_at(s: Seq<char>, i: int) -> bool {
    let w = spec_space_end(s, i + 6);
    &&& 0 <= i
    &&& i + 6 <= s.len()
    &&& s.subrange(i, i + 6) == "Pages:"@
    &&& w > i + 6
    &&& spec_digits_end(s, w) > w
}

/// The position of the first page-count label at or after `i`, if any.
pub open spec fn spec_first_pages_label(s: Seq<char>, i: int) -> Option<int>
    decreases s.len() - i,
{
    if 0 <= i <= s.len() {
        if spec_pages_label_at(s, i) {
            Some(i)
        } else if i < s.len() {
            spec_first_pages_label(s, i + 1)
        } else {
            None
        }
    } else {
        None
    }
}

/// The page count a listing text announces: the digits after the first
/// `Pages:` label.
pub open spec fn spec_pages_count(s: Seq<char>) -> Option<nat> {
    match spec_first_pages_label(s, 0) {
        Option::Some(i) => {
            let w = spec_space_end(s, i + 6);
            let d = spec_digits_end(s, w);
            Some(spec_dec_value(s.subrange(w, d)))
        },
        Option::None => None,
    }
}

/// Why a listing text announces no usable page count.
#[derive(Debug, Clone, PartialEq, Eq, Structural)]
pub enum PagesLabelError {
    /// No `Pages:` label followed by a number occurs in the text.
    NotFound,
    /// The announced number does not fit the machine.
    OutOfRange,
}

/// Read the page count out of a listing text: the number after the first
/// occurrence of `Pages:` and spacing.
#[verifier::rlimit(50)]
pub fn pages_label_count(text: &str) -> (r: Result<usize, PagesLabelError>)
    ensures
        match r {
            Result::Ok(n) => spec_pages_count(text@) == Some(n as nat),
            Result::Err(PagesLabelError::NotFound) => spec_pages_count(text@) is None,
            Result::Err(PagesLabelError::OutOfRange) => (spec_pages_count(text@) matches Some(v)
                && v > usize::MAX),
        },
{
    let v = str_chars(text);
    let ghost s = text@;
    let n: usize = v.len();
    let mut i: usize = 0;
    proof {
        reveal_strlit("Pages:");
    }
    while i < n
        invariant
            0 <= i <= n,
            s == text@,
            n == s.len(),
            v@ == s,
            spec_first_pages_label(s, 0) == spec_first_pages_label(s, i as int),
        decreases n - i,
    {
        proof {
            reveal_strlit("Pages:");
        }
        let label_here: bool = if n >= 6 && i <= n - 6 {
            v[i] == 'P' && v[i + 1] == 'a' && v[i + 2] == 'g' && v[i + 3] == 'e' && v[i + 4]
                == 's' && v[i + 5] == ':'
        } else {
            false
        };
        if label_here {
            proof {
                assert(s.subrange(i as int, i as int + 6) =~= "Pages:"@);
            }
            let w = space_end(&v, i + 6);
            if w > i + 6 {
                let d = digits_end(&v, w);
                if d > w {
                    assert(spec_pages_label_at(s, i as int));
                    proof {
                        assert(spec_first_pages_label(s, i as int) == Some(i as int));
                        lemma_digits_end_run(s, w as int);
                        assert(spec_digits_part(s.subrange(w as int, d as int)) =~= s.subrange(
                            w as int,
                            d as int,
                        ));
                        assert(spec_all_digits(s.subrange(w as int, d as int)));
                    }
                    return match parse_usize_range(&v, w, d) {
                        Some(count) => Ok(count),
                        None => Err(PagesLabelError::OutOfRange),
                    };
                }
            }
        }
        proof {
            let q = i as int;
            if q + 6 <= n && s.subrange(q, q + 6) == "Pages:"@ {
                assert(s.subrange(q, q + 6)[0] == s[q]);
                assert(s.subrange(q, q + 6)[1] == s[q + 1]);
                assert(s.subrange(q, q + 6)[2] == s[q + 2]);
                assert(s.subrange(q, q + 6)[3] == s[q + 3]);
                assert(s.subrange(q, q + 6)[4] == s[q + 4]);
                assert(s.subrange(q, q + 6)[5] == s[q + 5]);
            }
            assert(!spec_pages_label_at(s, q));
        }
        i = i + 1;
    }
    Err(PagesLabelError::NotFound)
}

/// Why no download can start for a gallery URL string.
#[derive(Debug, Clone, PartialEq, Eq, Structural)]
pub enum SelectError {
    /// The string does not denote a URL.
    InvalidUrl,
    /// No site's rules apply to the URL.
    NoDownloaderFound,
}

/// Parse a gallery URL string and select the site responsible for it, or
/// say exactly why no download can start.
pub fn select_downloader(url_text: &str) -> (r: Result<(Url, SiteKind), SelectError>)
    ensures
        match r {
            Result::Ok((u, site)) => uri_parts_of(url_text@) == Some(u@) && spec_find_downloader(
                u@,
            ) == Some(site),
            Result::Err(SelectError::InvalidUrl) => uri_parts_of(url_text@) is None,
            Result::Err(SelectError::NoDownloaderFound) => (uri_parts_of(url_text@) matches Some(
                u,
            ) && spec_find_downloader(u) is None),
        },
{
    let url = match parse_url(url_text) {
        Ok(u) => u,
        Err(_) => {
            return Err(SelectError::InvalidUrl);
        },
    };
    match find_downloader(&url) {
        Some(site) => Ok((url, site)),
        None => Err(SelectError::NoDownloaderFound),
    }
}

/// The path of the `page`-th image file, made from an image URL pattern:
/// the pattern's parent directory, the page number, and the pattern's
/// extension.
pub open spec fn spec_page_path(p: Seq<char>, page: nat) -> Seq<char>
    recommends
        spec_extension(spec_after_last(spec_strip_trailing_slashes(p), '/')) is Some,
{
    let t = spec_strip_trailing_slashes(p);
    spec_before_last(t, '/') + seq!['/'] + spec_dec_digits(page) + seq!['.'] + spec_extension(
        spec_after_last(t, '/'),
    ).unwrap()
}

/// What a listing page's findings boil down to: how many numbered image
/// files exist, and the URL of one of them, the pattern the others are
/// derived from.
pub struct DownloadCtx {
    pub pages_count: usize,
    pub img_url_pattern: Url,
}

impl DownloadCtx {
    /// The URLs of all image files of the gallery: the pattern with its
    /// file name replaced by each page number from one upward, keeping
    /// scheme and authority and dropping any query.
    pub fn get_urls(&self) -> (r: Result<Vec<Url>, PatternError>)
        ensures
            ({
                let t = spec_strip_trailing_slashes(self.img_url_pattern@.path);
                match r {
                    Result::Ok(urls) => {
                        &&& t.len() > 0
                        &&& spec_extension(spec_after_last(t, '/')) is Some
                        &&& urls@.len() == self.pages_count
                        &&& (forall|i: int|
                            0 <= i < urls@.len() ==> {
                                &&& (#[trigger] urls@[i])@.scheme == self.img_url_pattern@.scheme
                                &&& urls@[i]@.authority == self.img_url_pattern@.authority
                                &&& urls@[i]@.query is None
                                &&& urls@[i]@.path == spec_page_path(
                                    self.img_url_pattern@.path,
                                    (i + 1) as nat,
                                )
                            })
                    },
                    Result::Err(PatternError::NoParent) => t.len() == 0,
                    Result::Err(PatternError::NoExtension) => t.len() > 0 && spec_extension(
                        spec_after_last(t, '/'),
                    ) is None,
                }
            }),
    {
        let (parent, ext) = match split_pattern_path(self.img_url_pattern.path.as_str()) {
            Ok(pair) => pair,
            Err(e) => {
                return Err(e);
            },
        };
        let mut urls: Vec<Url> = Vec::new();
        let mut i: usize = 0;
        while i < self.pages_count
            invariant
                i <= self.pages_count,
                urls@.len() == i,
                parent@ == spec_before_last(
                    spec_strip_trailing_slashes(self.img_url_pattern@.path),
                    '/',
                ),
                Some(ext@) == spec_extension(
                    spec_after_last(
                        spec_strip_trailing_slashes(self.img_url_pattern@.path),
                        '/',
                    ),
                ),
                forall|j: int|
                    0 <= j < i ==> {
                        &&& (#[trigger] urls@[j])@.scheme == self.img_url_pattern@.scheme
                        &&& urls@[j]@.authority == self.img_url_pattern@.authority
                        &&& urls@[j]@.query is None
                        &&& urls@[j]@.path == spec_page_path(
                            self.img_url_pattern@.path,
                            (j + 1) as nat,
                        )
                    },
            decreases self.pages_count - i,
        {
            let mut path = parent.clone();
            path.push('/');
            push_dec_digits(&mut path, i + 1);
            path.push('.');
            path.append(ext.as_str());
            proof {
                assert(path@ =~= spec_page_path(self.img_url_pattern@.path, (i + 1) as nat));
            }
            let mut url = self.img_url_pattern.clone();
            url.path = path;
            url.query = None;
            urls.push(url);
            i = i + 1;
        }
        Ok(urls)
    }
}

} // verus!
