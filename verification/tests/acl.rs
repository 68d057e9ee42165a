use sjmb::re_acl::ReAcl;
use sjmb::re_mut::ReMut;

fn rules(list: &[&str]) -> Vec<String> {
    list.iter().map(|s| s.to_string()).collect()
}

#[test]
fn acl_first_match_wins_with_overlapping_patterns() {
    // Both the second and the third rule match; the lowest index wins.
    let acl = ReAcl::new(&rules(&["^root@", ".*@example\\.org$", "alice@.*"])).unwrap();
    let r = acl.re_match("alice@example.org");
    assert_eq!(r, Some((1, ".*@example\\.org$".to_string())));
}

#[test]
fn acl_returns_lowest_matching_index() {
    let acl = ReAcl::new(&rules(&["a", "b", "ab"])).unwrap();
    // All three match "ab"; index 0 must win.
    assert_eq!(acl.re_match("ab"), Some((0, "a".to_string())));
    // Only the middle one matches "b".
    assert_eq!(acl.re_match("zbz"), Some((1, "b".to_string())));
}

#[test]
fn acl_no_match_returns_none() {
    let acl = ReAcl::new(&rules(&["^foo$", "^bar$"])).unwrap();
    assert_eq!(acl.re_match("baz"), None);
}

#[test]
fn acl_empty_list_matches_nothing() {
    let acl = ReAcl::new(&rules(&[])).unwrap();
    assert_eq!(acl.re_match("anything"), None);
    assert_eq!(acl.len(), 0);
}

#[test]
fn acl_bad_pattern_is_rejected() {
    let err = ReAcl::new(&rules(&["^ok$", "("])).unwrap_err();
    assert_eq!(err.pattern, "(".to_string());
}

#[test]
fn acl_patterns_kept_in_declaration_order() {
    let list = rules(&["^b", "^a", "^c"]);
    let acl = ReAcl::new(&list).unwrap();
    assert_eq!(acl.patterns(), &list);
}

fn mut_rules(list: &[(&str, &str)]) -> Vec<(String, String)> {
    list.iter().map(|(a, b)| (a.to_string(), b.to_string())).collect()
}

#[test]
fn rewrite_none_iff_no_pattern_matches() {
    let t = ReMut::new(&mut_rules(&[("^https://x\\.test/", "https://y.test/")])).unwrap();
    assert_eq!(t.re_mut("https://z.test/page"), None);
    assert!(t.re_mut("https://x.test/page").is_some());
}

#[test]
fn rewrite_applies_first_matching_rule_once() {
    let t = ReMut::new(&mut_rules(&[
        ("not-there", "A"),
        ("foo", "bar"),
        ("o", "0"),
    ]))
    .unwrap();
    // Rules 1 and 2 both match; rule 1 wins, and the substitution happens
    // once, at the first match only.
    assert_eq!(
        t.re_mut("foofoo"),
        Some((1, "barfoo".to_string()))
    );
}

#[test]
fn rewrite_expands_group_references() {
    let t = ReMut::new(&mut_rules(&[(
        "^https://www\\.example\\.com/(.*)$",
        "https://example.com/$1",
    )]))
    .unwrap();
    assert_eq!(
        t.re_mut("https://www.example.com/a/b"),
        Some((0, "https://example.com/a/b".to_string()))
    );
}

#[test]
fn rewrite_bad_pattern_is_rejected() {
    let err = ReMut::new(&mut_rules(&[("[", "x")])).unwrap_err();
    assert_eq!(err.pattern, "[".to_string());
}
