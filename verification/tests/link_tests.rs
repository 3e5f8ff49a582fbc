use ddg_search::link::{canonical_url, percent_decode};

#[test]
fn percent_decode_plain_escapes() {
    assert_eq!(
        percent_decode("https%3A%2F%2Fexample.com%2Fpage"),
        "https://example.com/page"
    );
}

#[test]
fn percent_decode_plus_and_space_escape() {
    assert_eq!(percent_decode("a+b%20c"), "a b c");
}

#[test]
fn percent_decode_upper_and_lower_hex() {
    assert_eq!(percent_decode("%2f%2F"), "//");
    assert_eq!(percent_decode("%41%61"), "Aa");
}

#[test]
fn percent_decode_keeps_stray_percent() {
    assert_eq!(percent_decode("100%"), "100%");
    assert_eq!(percent_decode("%zz"), "%zz");
    assert_eq!(percent_decode("%4"), "%4");
}

#[test]
fn percent_decode_keeps_non_ascii_escapes() {
    assert_eq!(percent_decode("%C3%A9"), "%C3%A9");
}

#[test]
fn percent_decode_empty() {
    assert_eq!(percent_decode(""), "");
}

#[test]
fn canonical_url_decodes_redirect_parameter() {
    assert_eq!(
        canonical_url("/l/?uddg=https%3A%2F%2Fexample.com%2Fpage"),
        "https://example.com/page"
    );
}

#[test]
fn canonical_url_ignores_later_parameters() {
    assert_eq!(
        canonical_url("/l/?uddg=https%3A%2F%2Fexample.com%2Fpage&rut=abc123"),
        "https://example.com/page"
    );
}

#[test]
fn canonical_url_finds_parameter_after_others() {
    assert_eq!(
        canonical_url("/l/?rut=abc123&uddg=https%3A%2F%2Fexample.com"),
        "https://example.com"
    );
}

#[test]
fn canonical_url_matches_key_only_at_parameter_start() {
    assert_eq!(canonical_url("/l/?xuddg=skipped&uddg=kept"), "kept");
}

#[test]
fn canonical_url_completes_scheme_relative_link() {
    assert_eq!(
        canonical_url("//duckduckgo.com/about"),
        "https://duckduckgo.com/about"
    );
}

#[test]
fn canonical_url_keeps_absolute_link() {
    assert_eq!(
        canonical_url("https://example.com/x?y=1"),
        "https://example.com/x?y=1"
    );
}

#[test]
fn canonical_url_keeps_link_without_query() {
    assert_eq!(canonical_url("/about"), "/about");
}
