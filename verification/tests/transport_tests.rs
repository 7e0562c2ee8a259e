use gallery_dl::args::ArcWrap;
use gallery_dl::strutil::{parse_usize, str_eq, usize_to_string};
use gallery_dl::transport::{plan_request, TransportError};
use gallery_dl::uri::{parse_url, Url};

fn url(text: &str) -> Url {
    parse_url(text).expect("test url must parse")
}

#[test]
fn https_plan_uses_default_port() {
    let plan = plan_request(&url("https://example.com/a/b?x=1")).expect("plannable");
    assert!(plan.https);
    assert_eq!(plan.host, "example.com");
    assert_eq!(plan.port, 443);
    assert_eq!(plan.addr, "example.com:443");
    assert_eq!(plan.target, "/a/b?x=1");
    assert_eq!(plan.host_header, "example.com");
}

#[test]
fn http_plan_uses_port_eighty() {
    let plan = plan_request(&url("http://example.com/img.png")).expect("plannable");
    assert!(!plan.https);
    assert_eq!(plan.port, 80);
    assert_eq!(plan.addr, "example.com:80");
    assert_eq!(plan.target, "/img.png");
}

#[test]
fn explicit_port_wins() {
    let plan = plan_request(&url("http://example.com:8080/x")).expect("plannable");
    assert_eq!(plan.port, 8080);
    assert_eq!(plan.host, "example.com");
    assert_eq!(plan.addr, "example.com:8080");
    assert_eq!(plan.host_header, "example.com:8080");
}

#[test]
fn empty_path_targets_the_root() {
    let plan = plan_request(&url("https://example.com")).expect("plannable");
    assert_eq!(plan.target, "/");
}

#[test]
fn userinfo_stays_out_of_the_host() {
    let u = Url {
        scheme: Some(String::from("http")),
        authority: Some(String::from("user@example.com:81")),
        path: String::from("/"),
        query: None,
    };
    let plan = plan_request(&u).expect("plannable");
    assert_eq!(plan.host, "example.com");
    assert_eq!(plan.port, 81);
    assert_eq!(plan.host_header, "user@example.com:81");
}

#[test]
fn bracketed_host_keeps_its_brackets() {
    let u = Url {
        scheme: Some(String::from("https")),
        authority: Some(String::from("[::1]:8443")),
        path: String::from("/x"),
        query: None,
    };
    let plan = plan_request(&u).expect("plannable");
    assert_eq!(plan.host, "[::1]");
    assert_eq!(plan.port, 8443);
    assert_eq!(plan.addr, "[::1]:8443");
}

#[test]
fn unclosed_bracket_is_rejected() {
    let u = Url {
        scheme: Some(String::from("https")),
        authority: Some(String::from("[::1")),
        path: String::from("/"),
        query: None,
    };
    assert!(matches!(plan_request(&u), Err(TransportError::InvalidHost)));
}

#[test]
fn out_of_range_port_falls_back_to_the_default() {
    let u = Url {
        scheme: Some(String::from("http")),
        authority: Some(String::from("example.com:70000")),
        path: String::from("/"),
        query: None,
    };
    let plan = plan_request(&u).expect("plannable");
    assert_eq!(plan.port, 80);
}

#[test]
fn scheme_errors() {
    assert!(matches!(plan_request(&url("/no/scheme")), Err(TransportError::NoProtocol)));
    match plan_request(&url("ftp://example.com/")) {
        Err(TransportError::InvalidProtocol(s)) => assert_eq!(s, "ftp"),
        other => panic!("expected an invalid-protocol error, got {:?}", other),
    }
    let u = Url {
        scheme: Some(String::from("http")),
        authority: None,
        path: String::from("/x"),
        query: None,
    };
    assert!(matches!(plan_request(&u), Err(TransportError::NoHost)));
}

#[test]
fn parse_usize_reads_decimal() {
    assert_eq!(parse_usize("123"), Some(123));
    assert_eq!(parse_usize("+42"), Some(42));
    assert_eq!(parse_usize("0"), Some(0));
    assert_eq!(parse_usize(""), None);
    assert_eq!(parse_usize("+"), None);
    assert_eq!(parse_usize("12a"), None);
    assert_eq!(parse_usize("-3"), None);
    assert_eq!(parse_usize("99999999999999999999999999"), None);
}

#[test]
fn usize_to_string_is_plain_decimal() {
    assert_eq!(usize_to_string(0), "0");
    assert_eq!(usize_to_string(907), "907");
    assert_eq!(usize_to_string(10), "10");
}

#[test]
fn str_eq_compares_contents() {
    assert!(str_eq("abc", "abc"));
    assert!(!str_eq("abc", "abd"));
    assert!(!str_eq("abc", "ab"));
    assert!(str_eq("", ""));
}

#[test]
fn arc_wrap_shares_one_value() {
    let w = ArcWrap::new(41usize);
    let first = w.inner();
    let second = w.clone().inner();
    assert_eq!(*first, 41);
    assert_eq!(*second, 41);
}
