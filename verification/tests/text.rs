use flot::text::{escape, push_decimal, starts_with};

#[test]
fn decimal_digits() {
    let mut s = String::from("n=");
    push_decimal(&mut s, 0);
    s.push(',');
    push_decimal(&mut s, 7);
    s.push(',');
    push_decimal(&mut s, 10);
    s.push(',');
    push_decimal(&mut s, 12345);
    s.push(',');
    push_decimal(&mut s, u64::MAX);
    assert_eq!(s, "n=0,7,10,12345,18446744073709551615");
}

#[test]
fn html_entities() {
    assert_eq!(escape(""), "");
    assert_eq!(escape("plain text"), "plain text");
    assert_eq!(escape("<a href='x'>T&C</a>"), "&lt;a href='x'&gt;T&amp;C&lt;/a&gt;");
    assert_eq!(escape("&amp;"), "&amp;amp;");
    assert_eq!(escape("é < ü"), "é &lt; ü");
}

#[test]
fn prefixes() {
    assert!(starts_with("function (v) { return v; }", "function"));
    assert!(starts_with("function", "function"));
    assert!(!starts_with("functio", "function"));
    assert!(!starts_with(" function", "function"));
    assert!(!starts_with("Function (v)", "function"));
    assert!(starts_with("anything", ""));
    assert!(starts_with("", ""));
    assert!(!starts_with("", "f"));
    assert!(starts_with("éa", "é"));
}
