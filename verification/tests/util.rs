use rubber_duck::util::drain_map;
use rubber_duck::util::uppercase;
use rubber_duck::util::with_first;

#[test]
fn the_first_letter_goes_to_upper_case() {
    assert_eq!(uppercase("is_a_test"), "Is_a_test");
    assert_eq!(uppercase("two_pos"), "Two_pos");
    assert_eq!(uppercase("a"), "A");
}

#[test]
fn nothing_else_changes() {
    assert_eq!(uppercase(""), "");
    assert_eq!(uppercase("Abc"), "Abc");
    assert_eq!(uppercase("aBC def"), "ABC def");
    assert_eq!(uppercase("_x"), "_x");
    assert_eq!(uppercase("1a"), "1a");
}

#[test]
fn a_letter_may_map_to_more_than_one() {
    assert_eq!(uppercase("\u{df}a"), "SSa");
    assert_eq!(uppercase("\u{e9}cole"), "\u{c9}cole");
    assert_eq!(uppercase("\u{fb01}x"), "FIx");
}

#[test]
fn the_mapped_items_leave_and_the_others_stay() {
    let mut input = vec![1, 2, 3, 4, 5, 6];
    let halves = drain_map(&mut input, |x: &i32| {
        if x % 2 == 0 {
            Some(x / 2)
        } else {
            None
        }
    });
    assert_eq!(halves, vec![1, 2, 3]);
    assert_eq!(input, vec![1, 3, 5]);
}

#[test]
fn all_or_none_may_leave() {
    let mut input = vec!["a".to_string(), "b".to_string()];
    let lengths = drain_map(&mut input, |s: &String| Some(s.len()));
    assert_eq!(lengths, vec![1, 1]);
    assert!(input.is_empty());

    let mut input = vec!["a".to_string(), "b".to_string()];
    let nothing: Vec<u8> = drain_map(&mut input, |_s: &String| None);
    assert!(nothing.is_empty());
    assert_eq!(input, vec!["a".to_string(), "b".to_string()]);

    let mut input: Vec<u8> = vec![];
    let nothing: Vec<u8> = drain_map(&mut input, |x: &u8| Some(*x));
    assert!(nothing.is_empty());
    assert!(input.is_empty());
}

#[test]
fn neighbours_that_leave_together_are_all_seen() {
    let mut input = vec![2, 4, 6, 1, 8, 10, 3];
    let seen = drain_map(&mut input, |x: &i32| {
        if x % 2 == 0 {
            Some(*x)
        } else {
            None
        }
    });
    assert_eq!(seen, vec![2, 4, 6, 8, 10]);
    assert_eq!(input, vec![1, 3]);
}

#[test]
fn the_rest_follows_the_first() {
    assert_eq!(with_first("SS".to_owned(), "a"), "SSa");
    assert_eq!(with_first(String::new(), "abc"), "abc");
    assert_eq!(with_first("A".to_owned(), ""), "A");
    assert_eq!(with_first(String::new(), ""), "");
}
