use trackerclaw::escape::{html_escape, ical_escape, md_escape};

#[test]
fn ical_escape_specials() {
    assert_eq!(ical_escape("a,b;c\nd"), "a\\,b\\;c\\nd");
}

#[test]
fn ical_escape_backslash_first() {
    assert_eq!(ical_escape("a\\b"), "a\\\\b");
    assert_eq!(ical_escape("plain text"), "plain text");
}

#[test]
fn html_escape_all_specials() {
    assert_eq!(
        html_escape("<script>alert(1)</script>"),
        "&lt;script&gt;alert(1)&lt;/script&gt;"
    );
    assert_eq!(html_escape("Evil <b>Client</b>"), "Evil &lt;b&gt;Client&lt;/b&gt;");
    assert_eq!(html_escape("a & \"b\" 'c'"), "a &amp; &quot;b&quot; &#39;c&#39;");
}

#[test]
fn md_escape_pipes() {
    assert_eq!(md_escape("a|b"), "a\\|b");
    assert_eq!(md_escape("Acme|Corp"), "Acme\\|Corp");
    assert_eq!(md_escape("none"), "none");
}
