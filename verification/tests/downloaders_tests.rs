use gallery_dl::downloaders::{
    downloaders, find_downloader, pages_label_count, select_downloader, site_matches, DownloadCtx,
    Ehentai, GalleryInfo, Imhentai, Nhentai, PagesLabelError, SelectError, SiteKind,
};
use gallery_dl::uri::{parse_url, PatternError, Url};

fn url(text: &str) -> Url {
    parse_url(text).expect("test url must parse")
}

#[test]
fn nhentai_matches_its_galleries() {
    let site = Nhentai::new();
    assert_eq!(site.name(), "Nhentai");
    assert!(site.is_gallery_match(&url("https://nhentai.net/g/123/")));
    assert!(site.is_gallery_match(&url("http://nhentai.net/g/9")));
    assert!(!site.is_gallery_match(&url("https://nhentai.net/g//")));
    assert!(!site.is_gallery_match(&url("https://nhentai.net/g/12x/")));
    assert!(!site.is_gallery_match(&url("https://nhentai.net/tags/")));
    assert!(!site.is_gallery_match(&url("https://example.com/g/123/")));
    assert!(!site.is_gallery_match(&url("ftp://nhentai.net/g/123/")));
}

#[test]
fn imhentai_matches_its_galleries() {
    let site = Imhentai::new();
    assert_eq!(site.name(), "Imhentai");
    assert!(site.is_gallery_match(&url("https://imhentai.xxx/gallery/55/")));
    assert!(site.is_gallery_match(&url("https://imhentai.xxx/gallery/55")));
    assert!(!site.is_gallery_match(&url("https://imhentai.xxx/gallery/")));
    assert!(!site.is_gallery_match(&url("https://imhentai.xxx/gallery/55/extra")));
    assert!(!site.is_gallery_match(&url("https://nhentai.net/gallery/55/")));
}

#[test]
fn ehentai_matches_its_galleries() {
    let site = Ehentai::new();
    assert_eq!(site.name(), "Ehentai");
    assert!(site.is_gallery_match(&url("https://e-hentai.org/g/123/ab12f/")));
    assert!(site.is_gallery_match(&url("https://e-hentai.org/g/123/ABCDEF")));
    assert!(!site.is_gallery_match(&url("https://e-hentai.org/g/123/")));
    assert!(!site.is_gallery_match(&url("https://e-hentai.org/g/123/xyz/")));
    assert!(!site.is_gallery_match(&url("https://e-hentai.org/g/abc/def/")));
    assert!(!site.is_gallery_match(&url("https://e-hentai.org/g/123/ab12f/more")));
}

#[test]
fn downloader_order_is_fixed() {
    let order = downloaders();
    assert_eq!(order, vec![SiteKind::Imhentai, SiteKind::Ehentai, SiteKind::Nhentai]);
}

#[test]
fn find_downloader_picks_the_matching_site() {
    assert_eq!(
        find_downloader(&url("https://imhentai.xxx/gallery/55/")),
        Some(SiteKind::Imhentai)
    );
    assert_eq!(
        find_downloader(&url("https://e-hentai.org/g/123/ab12f/")),
        Some(SiteKind::Ehentai)
    );
    assert_eq!(find_downloader(&url("https://nhentai.net/g/123/")), Some(SiteKind::Nhentai));
    assert_eq!(find_downloader(&url("https://example.com/g/123/")), None);
}

#[test]
fn site_matches_agrees_with_find() {
    let g = url("https://nhentai.net/g/123/");
    assert!(site_matches(SiteKind::Nhentai, &g));
    assert!(!site_matches(SiteKind::Imhentai, &g));
    assert!(!site_matches(SiteKind::Ehentai, &g));
}

#[test]
fn select_downloader_outcomes() {
    match select_downloader("https://nhentai.net/g/123/") {
        Ok((u, site)) => {
            assert_eq!(site, SiteKind::Nhentai);
            assert_eq!(u.authority.as_deref(), Some("nhentai.net"));
        },
        other => panic!("expected the nhentai site, got {:?}", other),
    }
    assert!(matches!(
        select_downloader("https://example.com/elsewhere"),
        Err(SelectError::NoDownloaderFound)
    ));
    assert!(matches!(select_downloader("http://bad url"), Err(SelectError::InvalidUrl)));
}

#[test]
fn gallery_info_carries_its_findings() {
    let info = GalleryInfo { pages_count: 12, title: String::from("A Title") };
    assert_eq!(info.pages_count, 12);
    assert_eq!(info.title, "A Title");
}

#[test]
fn page_urls_follow_the_pattern() {
    let ctx = DownloadCtx {
        pages_count: 3,
        img_url_pattern: url("https://cdn.example.com/123/7.jpg?token=q"),
    };
    let urls = ctx.get_urls().expect("pattern has parent and extension");
    assert_eq!(urls.len(), 3);
    let paths: Vec<&str> = urls.iter().map(|u| u.path.as_str()).collect();
    assert_eq!(paths, vec!["/123/1.jpg", "/123/2.jpg", "/123/3.jpg"]);
    for u in &urls {
        assert_eq!(u.scheme.as_deref(), Some("https"));
        assert_eq!(u.authority.as_deref(), Some("cdn.example.com"));
        assert_eq!(u.query, None);
    }
}

#[test]
fn page_urls_need_a_parent_and_an_extension() {
    let ctx = DownloadCtx { pages_count: 2, img_url_pattern: url("https://cdn.example.com/") };
    assert!(matches!(ctx.get_urls(), Err(PatternError::NoParent)));

    let ctx = DownloadCtx {
        pages_count: 2,
        img_url_pattern: url("https://cdn.example.com/123/raw"),
    };
    assert!(matches!(ctx.get_urls(), Err(PatternError::NoExtension)));
}

#[test]
fn pages_label_is_read_out_of_listing_text() {
    assert_eq!(pages_label_count("Pages: 25"), Ok(25));
    assert_eq!(pages_label_count("Tags: x  Pages: \t 7  Uploaded: y"), Ok(7));
    // the first label wins
    assert_eq!(pages_label_count("Pages: 3 Pages: 9"), Ok(3));
    // a label without spacing or digits does not count
    assert_eq!(pages_label_count("Pages:12"), Err(PagesLabelError::NotFound));
    assert_eq!(pages_label_count("Pages: soon"), Err(PagesLabelError::NotFound));
    assert_eq!(pages_label_count("no label at all"), Err(PagesLabelError::NotFound));
    assert_eq!(pages_label_count(""), Err(PagesLabelError::NotFound));
    assert_eq!(
        pages_label_count("Pages: 99999999999999999999999999"),
        Err(PagesLabelError::OutOfRange)
    );
}

#[test]
fn zero_pages_give_no_urls() {
    let ctx = DownloadCtx { pages_count: 0, img_url_pattern: url("https://cdn.example.com/1/1.jpg") };
    let urls = ctx.get_urls().expect("pattern is fine");
    assert!(urls.is_empty());
}
