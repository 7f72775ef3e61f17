use trackerclaw::webhook::parse_webhook_headers;

fn pairs(v: &[(&str, &str)]) -> Vec<(String, String)> {
    v.iter().map(|(a, b)| (a.to_string(), b.to_string())).collect()
}

#[test]
fn headers_split_at_first_colon_and_trimmed() {
    let h = "Authorization: Bearer a:b\r\n X-Team : core \nnot a header\n";
    assert_eq!(
        parse_webhook_headers(h),
        pairs(&[("Authorization", "Bearer a:b"), ("X-Team", "core")])
    );
}

#[test]
fn empty_headers_give_no_pairs() {
    assert!(parse_webhook_headers("").is_empty());
    assert!(parse_webhook_headers("\n\n").is_empty());
}

#[test]
fn empty_name_or_value_is_kept() {
    assert_eq!(parse_webhook_headers(":x\ny:"), pairs(&[("", "x"), ("y", "")]));
}
