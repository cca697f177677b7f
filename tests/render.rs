use minihttpie::error::ParseError;
use minihttpie::render::{
    content_kind, header_line, json_body_line, kind_from_verdict, plain_body_line, render_body,
    render_head, status_line, ContentKind, Header, Style,
};

fn header(name: &str, value: &str) -> Header {
    Header { name: name.to_string(), shown: format!("{:?}", value), text: Some(value.to_string()) }
}

#[test]
fn json_body_is_pretty_printed() {
    let hs = vec![header("content-type", "application/json")];
    let lines = render_body(&hs, "{\"a\":1}").unwrap();
    assert_eq!(lines.len(), 2);
    assert_eq!(lines[0].styled, "");
    assert_eq!(lines[0].plain, "");
    assert_eq!(lines[1].style, Style::Json);
    assert_eq!(lines[1].styled, "{\n  \"a\": 1\n}");
    assert!(lines[1].styled.lines().count() > 1);
}

#[test]
fn body_without_content_type_is_raw() {
    let lines = render_body(&Vec::new(), "{\"a\":1}").unwrap();
    assert_eq!(lines.len(), 2);
    assert_eq!(lines[1].style, Style::Plain);
    assert_eq!(lines[1].styled, "");
    assert_eq!(lines[1].plain, "{\"a\":1}");
}

#[test]
fn other_media_type_is_raw() {
    let hs = vec![header("content-type", "text/plain")];
    let lines = render_body(&hs, "{\"a\":1}").unwrap();
    assert_eq!(lines[1].plain, "{\"a\":1}");
    assert_eq!(lines[1].style, Style::Plain);
}

#[test]
fn json_type_with_parameters_is_raw() {
    let hs = vec![header("content-type", "application/json; charset=utf-8")];
    assert_eq!(content_kind(&hs), Ok(ContentKind::Other));
    let hs = vec![header("content-type", "Application/JSON")];
    assert_eq!(content_kind(&hs), Ok(ContentKind::Json));
}

#[test]
fn undecodable_content_type_fails() {
    let hs = vec![Header { name: "content-type".to_string(), shown: "\"\\xff\"".to_string(), text: None }];
    assert!(matches!(render_body(&hs, "x"), Err(ParseError::HeaderDecodeFailure)));
}

#[test]
fn unparsable_content_type_fails() {
    let hs = vec![header("content-type", "not a media type")];
    assert_eq!(content_kind(&hs), Err(ParseError::InvalidContentType));
    assert!(matches!(render_body(&hs, "x"), Err(ParseError::InvalidContentType)));
}

#[test]
fn first_content_type_decides() {
    let hs = vec![
        header("server", "x"),
        header("content-type", "application/json"),
        header("content-type", "text/plain"),
    ];
    assert_eq!(content_kind(&hs), Ok(ContentKind::Json));
    let hs = vec![header("content-type", "text/html"), header("content-type", "application/json")];
    assert_eq!(content_kind(&hs), Ok(ContentKind::Other));
}

#[test]
fn verdicts_map_to_kinds() {
    assert_eq!(kind_from_verdict(None), Err(ParseError::InvalidContentType));
    assert_eq!(kind_from_verdict(Some(true)), Ok(ContentKind::Json));
    assert_eq!(kind_from_verdict(Some(false)), Ok(ContentKind::Other));
}

#[test]
fn body_lines_from_parts() {
    let l = json_body_line(true, Some("{}".to_string())).unwrap();
    assert_eq!(l.styled, "{}");
    assert_eq!(l.style, Style::Json);
    assert!(matches!(json_body_line(true, None), Err(ParseError::InvalidJson)));
    assert!(matches!(json_body_line(false, Some("{}".to_string())), Err(ParseError::InvalidJson)));
    let l = plain_body_line("hi");
    assert_eq!(l.plain, "hi");
    assert_eq!(l.styled, "");
}

#[test]
fn status_and_header_lines() {
    let l = status_line("HTTP/1.1", "404 Not Found");
    assert_eq!(l.styled, "HTTP/1.1 404 Not Found");
    assert_eq!(l.style, Style::Status);
    let l = header_line(&header("server", "nginx"));
    assert_eq!(l.styled, "server");
    assert_eq!(l.style, Style::HeaderName);
    assert_eq!(l.plain, ": \"nginx\"");
}

#[test]
fn get_of_plain_text_renders_sections_in_order() {
    let hs = vec![header("content-type", "text/plain"), header("content-length", "5")];
    let head = render_head("HTTP/1.1", "200 OK", &hs);
    assert_eq!(head.len(), 4);
    assert!(head[0].styled.contains("200"));
    assert_eq!(head[1].styled, "");
    assert_eq!(head[1].plain, "");
    assert_eq!(head[2].styled, "content-type");
    assert_eq!(head[2].plain, ": \"text/plain\"");
    assert_eq!(head[3].styled, "content-length");
    let body = render_body(&hs, "hello").unwrap();
    assert_eq!(body[0].plain, "");
    assert_eq!(body[1].plain, "hello");
    assert_eq!(body[1].style, Style::Plain);
}

#[test]
fn invalid_json_under_json_type_fails() {
    let hs = vec![header("content-type", "application/json")];
    assert!(matches!(render_body(&hs, "not json"), Err(ParseError::InvalidJson)));
    assert!(matches!(render_body(&hs, "{\"a\":"), Err(ParseError::InvalidJson)));
    assert!(matches!(render_body(&hs, "{}{}"), Err(ParseError::InvalidJson)));
    assert!(render_body(&hs, " [1, 2] ").is_ok());
}
