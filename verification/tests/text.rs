use image_transfer::text::{chars_of, has_extension, sorts_no_later};

#[test]
fn chars_of_gives_every_character_in_order() {
    assert_eq!(chars_of("a.py"), vec!['a', '.', 'p', 'y']);
    assert_eq!(chars_of(""), Vec::<char>::new());
    assert_eq!(chars_of("é文"), vec!['é', '文']);
}

#[test]
fn a_name_sorts_no_later_than_itself() {
    assert!(sorts_no_later("a.py", "a.py"));
    assert!(sorts_no_later("", ""));
}

#[test]
fn the_first_difference_decides() {
    assert!(sorts_no_later("a.py", "b.py"));
    assert!(!sorts_no_later("b.py", "a.py"));
    assert!(sorts_no_later("ab", "ac"));
    assert!(!sorts_no_later("ac", "ab"));
}

#[test]
fn a_prefix_sorts_first() {
    assert!(sorts_no_later("a", "a.py"));
    assert!(!sorts_no_later("a.py", "a"));
    assert!(sorts_no_later("", "a"));
    assert!(!sorts_no_later("a", ""));
}

#[test]
fn upper_case_sorts_before_lower_case() {
    assert!(sorts_no_later("B.py", "a.py"));
    assert!(!sorts_no_later("a.py", "B.py"));
}

#[test]
fn order_is_that_of_code_points() {
    assert!(sorts_no_later("z", "é"));
    assert!(!sorts_no_later("é", "z"));
    assert!(sorts_no_later("é", "文"));
}

#[test]
fn order_agrees_with_the_order_of_strings() {
    let names = ["", "a", "A", "a.py", "b.py", "ab", "é", "文", "a b", "Z.py", "z.py"];
    for a in names {
        for b in names {
            assert_eq!(sorts_no_later(a, b), a <= b, "{:?} against {:?}", a, b);
        }
    }
}

#[test]
fn of_two_names_one_sorts_no_later() {
    let names = ["x.py", "X.py", "", "x", "y.rs"];
    for a in names {
        for b in names {
            assert!(sorts_no_later(a, b) || sorts_no_later(b, a));
            if sorts_no_later(a, b) && sorts_no_later(b, a) {
                assert_eq!(a, b);
            }
        }
    }
}

#[test]
fn extension_is_what_follows_the_last_dot() {
    assert!(has_extension("a.py", "py"));
    assert!(has_extension("a.b.py", "py"));
    assert!(!has_extension("a.py.txt", "py"));
    assert!(has_extension("a.py.txt", "txt"));
    assert!(!has_extension("a.py", "rs"));
    assert!(!has_extension("a.pyc", "py"));
    assert!(!has_extension("a.py", "y"));
}

#[test]
fn extension_needs_a_dot() {
    assert!(!has_extension("apy", "py"));
    assert!(!has_extension("py", "py"));
    assert!(!has_extension("", "py"));
    assert!(!has_extension("", ""));
}

#[test]
fn a_leading_dot_starts_no_extension() {
    assert!(!has_extension(".py", "py"));
    assert!(has_extension("..py", "py"));
    assert!(has_extension("a..py", "py"));
}

#[test]
fn an_extension_holds_no_dot() {
    assert!(!has_extension("a.tar.gz", "tar.gz"));
    assert!(has_extension("a.tar.gz", "gz"));
}

#[test]
fn an_empty_extension_follows_a_final_dot() {
    assert!(has_extension("a.", ""));
    assert!(!has_extension("a", ""));
    assert!(!has_extension(".", ""));
}

#[test]
fn extension_is_case_sensitive() {
    assert!(!has_extension("a.PY", "py"));
    assert!(has_extension("a.PY", "PY"));
}
