use svc_result::{can_replace_host, parse_url, replace_host, rewrite_to_base, Error};

#[test]
fn replace_url_host() {
    let src = url::Url::parse("https://www.baz.com:90/foo?bar=10").unwrap();
    let target = url::Url::parse("https://fiz.net").unwrap();
    let expected = url::Url::parse("https://fiz.net:90/foo?bar=10").unwrap();
    let actual = replace_host(src, target).unwrap();
    assert_eq!(expected, actual);
}

#[test]
fn replace_url_port() {
    let src = url::Url::parse("https://www.baz.com:90/foo?bar=10").unwrap();
    let target = url::Url::parse("https://baz.net:9090").unwrap();
    let expected = url::Url::parse("https://baz.net:9090/foo?bar=10").unwrap();
    let actual = replace_host(src, target).unwrap();
    assert_eq!(expected, actual);
}

#[test]
fn replace_url_schema() {
    let src = url::Url::parse("https://www.baz.com:90/foo?bar=10").unwrap();
    let target = url::Url::parse("http://baz.net").unwrap();
    let expected = url::Url::parse("http://baz.net:90/foo?bar=10").unwrap();
    let actual = replace_host(src, target).unwrap();
    assert_eq!(expected, actual);
}

#[test]
fn replace_keeps_missing_port_missing() {
    let src = url::Url::parse("https://www.baz.com/foo?bar=10").unwrap();
    let target = url::Url::parse("https://fiz.net").unwrap();
    let actual = replace_host(src, target).unwrap();
    assert_eq!("https://fiz.net/foo?bar=10", actual.as_str());
    assert_eq!(None, actual.port());
}

#[test]
fn replace_drops_port_that_becomes_default() {
    // 443 is explicit for an http url, but once the scheme is swapped for
    // https it is that scheme's default and is dropped.
    let src = url::Url::parse("http://www.baz.com:443/foo").unwrap();
    let target = url::Url::parse("https://fiz.net").unwrap();
    let actual = replace_host(src, target).unwrap();
    assert_eq!("https://fiz.net/foo", actual.as_str());
    assert_eq!(None, actual.port());
}

#[test]
fn replace_without_dest_host_keeps_src_host() {
    let src = url::Url::parse("mailto:someone@example.com").unwrap();
    let target = url::Url::parse("news:comp.lang.misc").unwrap();
    let actual = replace_host(src, target).unwrap();
    assert_eq!("news", actual.scheme());
    assert_eq!(None, actual.host_str());
}

#[test]
fn replace_keeps_fragment_and_userinfo() {
    let src = url::Url::parse("https://user:pw@www.baz.com:90/foo?bar=10#sec").unwrap();
    let target = url::Url::parse("http://baz.net").unwrap();
    let actual = replace_host(src, target).unwrap();
    assert_eq!("http://user:pw@baz.net:90/foo?bar=10#sec", actual.as_str());
}

#[test]
fn replace_applied_twice_changes_nothing_more() {
    let src = url::Url::parse("https://www.baz.com:90/foo?bar=10").unwrap();
    let target = url::Url::parse("http://baz.net").unwrap();
    let once = replace_host(src, target.clone()).unwrap();
    let twice = replace_host(once.clone(), target).unwrap();
    assert_eq!(once, twice);
}

#[test]
fn can_replace_host_accepts_the_documented_pairs() {
    let src = url::Url::parse("https://www.baz.com:90/foo?bar=10").unwrap();
    let dest = url::Url::parse("http://baz.net").unwrap();
    assert!(can_replace_host(&src, &dest));
}

#[test]
fn can_replace_host_refuses_special_for_non_special() {
    let src = url::Url::parse("https://www.baz.com:90/foo?bar=10").unwrap();
    let dest = url::Url::parse("news:comp.lang.misc").unwrap();
    assert!(!can_replace_host(&src, &dest));
}

#[test]
fn can_replace_host_refuses_file_dest_with_host() {
    let src = url::Url::parse("https://www.baz.com/foo").unwrap();
    let dest = url::Url::parse("file://server/share").unwrap();
    assert!(!can_replace_host(&src, &dest));
}

#[test]
fn parse_url_accepts_a_valid_url() {
    let parsed = parse_url("https://www.baz.com:90/foo?bar=10").unwrap();
    assert_eq!("https", parsed.scheme());
    assert_eq!(Some("www.baz.com"), parsed.host_str());
    assert_eq!(Some(90), parsed.port());
    assert_eq!("/foo", parsed.path());
    assert_eq!(Some("bar=10"), parsed.query());
}

#[test]
fn parse_url_reports_a_parse_failure() {
    match parse_url("not a url at all") {
        Ok(_) => panic!("expected a parse failure"),
        Err(Error::UrlParseFailed(_)) => {}
        Err(Error::UrlBaseReplacementError(_)) => {
            panic!("expected the parse failure variant")
        }
    }
}

#[test]
fn rewrite_to_base_reports_a_rejected_host() {
    // a cannot-be-a-base url takes no host at all, so the rewrite is refused
    let src = url::Url::parse("mailto:rms@example.net").unwrap();
    let base = url::Url::parse("foo://bar").unwrap();
    assert!(can_replace_host(&src, &base));
    match rewrite_to_base(src, base) {
        Err(Error::UrlBaseReplacementError(_)) => {}
        other => panic!("expected a base replacement error, got {:?}", other),
    }
}

#[test]
fn rewrite_to_base_points_at_the_base_authority() {
    let requested = url::Url::parse("https://api.example.com/v1/items?page=2").unwrap();
    let base = url::Url::parse("http://127.0.0.1:3000").unwrap();
    assert!(can_replace_host(&requested, &base));
    let actual = rewrite_to_base(requested, base).unwrap();
    assert_eq!("http://127.0.0.1:3000/v1/items?page=2", actual.as_str());
}
