use identity_service::history::{same_bytes, ChangeHistory, Comparison};

fn history(changes: &[&[u8]]) -> ChangeHistory {
    let mut h = ChangeHistory::new();
    for c in changes {
        h.push(c.to_vec());
    }
    h
}

#[test]
fn a_history_equals_itself() {
    let h = history(&[b"a", b"b", b"c"]);
    assert_eq!(h.len(), 3);
    assert_eq!(h.compare(&h), Comparison::Equal);
    assert_eq!(h.compare(&h.clone()), Comparison::Equal);
    let none = ChangeHistory::new();
    assert_eq!(none.compare(&none), Comparison::Equal);
}

#[test]
fn a_longer_history_is_newer() {
    let long = history(&[b"a", b"b", b"c"]);
    let short = history(&[b"a", b"b"]);
    assert_eq!(long.compare(&short), Comparison::Newer);
    assert_eq!(short.compare(&long), Comparison::Older);
    assert_eq!(long.compare(&ChangeHistory::new()), Comparison::Newer);
    assert_eq!(ChangeHistory::new().compare(&long), Comparison::Older);
}

#[test]
fn a_fork_is_a_conflict() {
    let a = history(&[b"a", b"b", b"c"]);
    let b = history(&[b"a", b"x", b"c"]);
    let c = history(&[b"a", b"x"]);
    let d = history(&[b"a", b"bb"]);
    assert_eq!(a.compare(&b), Comparison::Conflict);
    assert_eq!(b.compare(&a), Comparison::Conflict);
    assert_eq!(a.compare(&c), Comparison::Conflict);
    assert_eq!(c.compare(&a), Comparison::Conflict);
    assert_eq!(a.compare(&d), Comparison::Conflict);
}

#[test]
fn against_nothing_known_everything_is_newer() {
    assert_eq!(history(&[b"a"]).compare_with_known(&None), Comparison::Newer);
    assert_eq!(ChangeHistory::new().compare_with_known(&None), Comparison::Newer);
    assert_eq!(
        history(&[b"a"]).compare_with_known(&Some(history(&[b"a"]))),
        Comparison::Equal
    );
    assert_eq!(
        history(&[b"a"]).compare_with_known(&Some(history(&[b"a", b"b"]))),
        Comparison::Older
    );
}

#[test]
fn numbers_of_comparisons() {
    assert_eq!(Comparison::Equal.index(), 0);
    assert_eq!(Comparison::Conflict.index(), 1);
    assert_eq!(Comparison::Newer.index(), 2);
    assert_eq!(Comparison::Older.index(), 3);
    assert_eq!(Comparison::from_index(4), None);
    for c in [Comparison::Equal, Comparison::Conflict, Comparison::Newer, Comparison::Older] {
        assert_eq!(Comparison::from_index(c.index()), Some(c));
    }
}

#[test]
fn byte_strings_are_compared_whole() {
    assert!(same_bytes(b"", b""));
    assert!(same_bytes(b"abc", b"abc"));
    assert!(!same_bytes(b"abc", b"abd"));
    assert!(!same_bytes(b"abc", b"ab"));
    assert!(!same_bytes(b"", b"a"));
}
