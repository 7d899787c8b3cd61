use tripchive::text::{i64_to_string, push_decimal, rsplit_once};

#[test]
fn rsplit_once_splits_at_the_last_delimiter() {
    assert_eq!(rsplit_once("a.b.c", '.'), Some(("a.b", "c")));
    assert_eq!(rsplit_once("abc", '.'), None);
    assert_eq!(rsplit_once(".", '.'), Some(("", "")));
    assert_eq!(rsplit_once("é.ü", '.'), Some(("é", "ü")));
    for s in ["a.b.c", "abc", ".", "x.", ".y", "é.ü.ö"] {
        assert_eq!(rsplit_once(s, '.'), s.rsplit_once('.'));
    }
}

#[test]
fn decimal_text_matches_to_string() {
    for n in [0i64, 7, 10, 12345, -1, -10, i64::MAX, i64::MIN] {
        assert_eq!(i64_to_string(n), n.to_string());
    }
    let mut s = String::from("n=");
    push_decimal(&mut s, u64::MAX);
    assert_eq!(s, format!("n={}", u64::MAX));
}
