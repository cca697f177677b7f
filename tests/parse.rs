use minihttpie::error::ParseError;
use minihttpie::kv::{parse_kv_pair, KvPair};
use minihttpie::url::{parse_url, url_from_verdict};

#[test]
fn test_parse_url() {
    assert!(parse_url("abc").is_err());
    assert!(parse_url("http://abc.xyz").is_ok());
    assert!(parse_url("https://goog.job").is_ok());
}

#[test]
fn test_parse_kv_pair() {
    assert!(parse_kv_pair("a").is_err());

    assert_eq!(
        parse_kv_pair("name=bob").unwrap(),
        KvPair {
            k: "name".into(),
            v: "bob".into()
        }
    );

    assert_eq!(
        parse_kv_pair("age=").unwrap(),
        KvPair {
            k: "age".into(),
            v: "".into()
        }
    );
}

#[test]
fn url_is_returned_unchanged() {
    assert_eq!(parse_url("http://abc.xyz").unwrap(), "http://abc.xyz");
    assert_eq!(parse_url("https://goog.job").unwrap(), "https://goog.job");
    assert_eq!(parse_url("HTTP://Example.COM/a/../b").unwrap(), "HTTP://Example.COM/a/../b");
}

#[test]
fn url_without_scheme_is_invalid() {
    assert_eq!(parse_url("abc"), Err(ParseError::InvalidUrl));
    assert_eq!(parse_url(""), Err(ParseError::InvalidUrl));
    assert_eq!(parse_url("example.com/path"), Err(ParseError::InvalidUrl));
    assert_eq!(parse_url("1http://x"), Err(ParseError::InvalidUrl));
}

#[test]
fn pair_without_separator_is_malformed() {
    assert_eq!(parse_kv_pair("a"), Err(ParseError::MalformedPair));
    assert_eq!(parse_kv_pair(""), Err(ParseError::MalformedPair));
}

#[test]
fn pair_splits_at_first_separator() {
    let p = parse_kv_pair("a=b=c").unwrap();
    assert_eq!(p.k, "a");
    assert_eq!(p.v, "b=c");
    let p = parse_kv_pair("=value").unwrap();
    assert_eq!(p.k, "");
    assert_eq!(p.v, "value");
    let p = parse_kv_pair("é=ü").unwrap();
    assert_eq!(p.k, "é");
    assert_eq!(p.v, "ü");
}

#[test]
fn pair_parses_through_from_str() {
    let p: KvPair = "name=bob".parse().unwrap();
    assert_eq!(p.k, "name");
    assert_eq!(p.v, "bob");
    assert!("nope".parse::<KvPair>().is_err());
}

#[test]
fn error_messages_are_distinct() {
    assert_ne!(ParseError::MalformedPair.message(), ParseError::InvalidUrl.message());
    assert_ne!(ParseError::InvalidJson.message(), ParseError::InvalidContentType.message());
}

#[test]
fn url_without_host_is_invalid() {
    assert_eq!(parse_url("mailto:bob@example.com"), Err(ParseError::InvalidUrl));
    assert_eq!(parse_url("file:///tmp/x"), Err(ParseError::InvalidUrl));
    assert!(parse_url("ftp://files.example.com/a").is_ok());
}

#[test]
fn url_verdicts_decide() {
    assert_eq!(url_from_verdict("http://a.b", Some(true)).unwrap(), "http://a.b");
    assert_eq!(url_from_verdict("mailto:x", Some(false)), Err(ParseError::InvalidUrl));
    assert_eq!(url_from_verdict("abc", None), Err(ParseError::InvalidUrl));
}

#[test]
fn from_str_keeps_embedded_separator() {
    let p: KvPair = "a==".parse().unwrap();
    assert_eq!(p.k, "a");
    assert_eq!(p.v, "=");
    assert_eq!("a==".parse::<KvPair>(), parse_kv_pair("a=="));
    assert_eq!("x".parse::<KvPair>(), Err(ParseError::MalformedPair));
}
