use tapplet_host::csp::{
    inject_csp_header, is_valid_header_value_str, normalize_csp, trim_quotes_str,
};

fn entry(name: &str, value: &str) -> (String, String) {
    (String::from(name), String::from(value))
}

#[test]
fn plain_csp_is_kept() {
    let r = normalize_csp("default-src 'self'");
    assert_eq!(r, "default-src 'self'");
}

#[test]
fn quoted_csp_is_normalized() {
    // Surrounding double quotes are a JSON storage artifact and are stripped.
    let r = normalize_csp("\"default-src 'self'\"");
    assert_eq!(r, "default-src 'self'");
}

#[test]
fn invalid_csp_falls_back_to_default() {
    let r = normalize_csp("foo\nbar");
    assert_eq!(r, "default-src 'self'");
}

#[test]
fn carriage_return_falls_back_to_default() {
    let r = normalize_csp("img-src *;\rscript-src 'none'");
    assert_eq!(r, "default-src 'self'");
}

#[test]
fn tab_is_a_valid_header_character() {
    let r = normalize_csp("default-src\t'self'");
    assert_eq!(r, "default-src\t'self'");
}

#[test]
fn repeated_quotes_are_all_stripped() {
    assert_eq!(trim_quotes_str("\"\"abc\"\"\""), "abc");
    assert_eq!(trim_quotes_str("abc"), "abc");
    assert_eq!(trim_quotes_str("\"\"\"\""), "");
}

#[test]
fn inner_quotes_survive_trimming() {
    assert_eq!(trim_quotes_str("\"a\"b\""), "a\"b");
}

#[test]
fn empty_csp_stays_empty() {
    assert_eq!(normalize_csp("\"\""), "");
    assert_eq!(normalize_csp(""), "");
}

#[test]
fn injection_adds_the_csp_header_once() {
    let headers = vec![entry("content-type", "text/html"), entry("content-length", "2")];
    let r = inject_csp_header(headers, "default-src 'self'");
    assert_eq!(r.len(), 3);
    assert_eq!(r[0], entry("content-type", "text/html"));
    assert_eq!(r[1], entry("content-length", "2"));
    assert_eq!(r[2], entry("content-security-policy", "default-src 'self'"));
}

#[test]
fn injection_replaces_an_existing_csp_header() {
    let headers = vec![
        entry("content-security-policy", "script-src *"),
        entry("content-type", "text/html"),
        entry("content-security-policy", "img-src *"),
    ];
    let r = inject_csp_header(headers, "default-src 'self'");
    assert_eq!(r.len(), 2);
    assert_eq!(r[0], entry("content-type", "text/html"));
    assert_eq!(r[1], entry("content-security-policy", "default-src 'self'"));
    let count =
        r.iter().filter(|(name, _)| name == "content-security-policy").count();
    assert_eq!(count, 1);
}

#[test]
fn injection_on_an_empty_response_yields_only_the_csp_header() {
    let r = inject_csp_header(Vec::new(), "default-src 'self'");
    assert_eq!(r, vec![entry("content-security-policy", "default-src 'self'")]);
}

#[test]
fn validity_agrees_with_header_value_parser() {
    // The verified predicate must match what the HTTP layer accepts.
    let samples = [
        "default-src 'self'",
        "",
        "foo\nbar",
        "foo\rbar",
        "foo\x7fbar",
        "foo\tbar",
        "foo\x1fbar",
        "unicode \u{00e9}\u{4e16}",
        "spaces and; semicolons: ok",
    ];
    for s in samples.iter() {
        let ours = is_valid_header_value_str(s);
        let theirs = http::HeaderValue::from_str(s).is_ok();
        assert_eq!(ours, theirs);
    }
}

#[test]
fn normalized_csp_always_builds_a_header_value() {
    let inputs = ["ok", "\"quoted\"", "bad\nvalue", "", "\"\"", "a\tb"];
    for s in inputs.iter() {
        let n = normalize_csp(s);
        assert!(http::HeaderValue::from_str(&n).is_ok());
    }
}
