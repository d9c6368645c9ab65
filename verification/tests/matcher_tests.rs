use matchee::Matchee;
use matchee::match_one_char;
use matchee::match_range;
use matchee::or_do;
use matchee::str_to_char_vec;
use matchee::then_do;

fn state(matched: &str, remained: &str) -> Matchee {
    Matchee { matched: matched.to_string(), remained: remained.to_string() }
}

#[test]
fn decode_non_ascii() {
    // "Lí 好！" decodes to exactly five scalar values: multi-byte
    // characters are never split.
    let v = str_to_char_vec("L\u{ed} \u{597d}\u{ff01}");
    assert_eq!(v.len(), 5);
    assert_eq!(v, vec!['L', '\u{ed}', ' ', '\u{597d}', '\u{ff01}']);
}

#[test]
fn decode_empty() {
    let v = str_to_char_vec("");
    assert_eq!(v, Vec::<char>::new());
}

#[test]
fn decode_ascii() {
    let v = str_to_char_vec("112");
    assert_eq!(v, vec!['1', '1', '2']);
}

#[test]
fn range_is_inclusive_at_both_bounds() {
    let digits = match_range('0', '9');

    let at_lower = digits.apply(&state("", "0x"));
    let at_lower = at_lower.expect("'0' lies in ['0', '9']");
    assert_eq!(at_lower.matched, "0");
    assert_eq!(at_lower.remained, "x");

    let at_upper = digits.apply(&state("", "9x"));
    let at_upper = at_upper.expect("'9' lies in ['0', '9']");
    assert_eq!(at_upper.matched, "9");
    assert_eq!(at_upper.remained, "x");

    assert!(digits.apply(&state("", "/x")).is_none());
    assert!(digits.apply(&state("", ":x")).is_none());
}

#[test]
fn empty_remained_fails_cleanly() {
    assert!(match_range('0', '9').apply(&state("", "")).is_none());
    assert!(match_one_char('a').apply(&state("ab", "")).is_none());
}

#[test]
fn inverted_range_matches_nothing() {
    assert!(match_range('9', '0').apply(&state("", "5")).is_none());
}

#[test]
fn then_do_short_circuits_on_none() {
    let m = match_one_char('x');
    assert!(then_do(None, &m).is_none());
}

#[test]
fn then_do_applies_on_some() {
    let m = match_one_char('1');
    let r = then_do(Some(state("", "112")), &m).expect("first character is '1'");
    assert_eq!(r.matched, "1");
    assert_eq!(r.remained, "12");
}

#[test]
fn match_one_char_consumes_exactly_its_character() {
    let ex = state("", "112");
    assert!(match_one_char('0').apply(&ex).is_none());
    let r = match_one_char('1').apply(&ex).expect("first character is '1'");
    assert_eq!(r.matched, "1");
    assert_eq!(r.remained, "12");
}

#[test]
fn narrowed_range_rejects_below_lower_bound() {
    let ex = state("", "112");
    assert!(match_range('2', '9').apply(&ex).is_none());
}

#[test]
fn or_do_is_left_biased_and_retries_the_original_state() {
    let ex = state("", "012");
    // The first branch fails ('0' is not '1'); the second branch must see
    // the original state, not a partially consumed one.
    let r = or_do(match_one_char('1'), match_one_char('0'))
        .apply(&ex)
        .expect("the second branch matches '0'");
    assert_eq!(r.matched, "0");
    assert_eq!(r.remained, "12");
    // The state fed to both branches is untouched.
    assert_eq!(ex.matched, "");
    assert_eq!(ex.remained, "012");
}

#[test]
fn or_do_takes_the_first_branch_when_it_succeeds() {
    let ex = state("", "012");
    let r = or_do(match_one_char('0'), match_one_char('1'))
        .apply(&ex)
        .expect("the first branch matches '0'");
    assert_eq!(r.matched, "0");
    assert_eq!(r.remained, "12");
}

#[test]
fn or_do_fails_when_both_branches_fail() {
    let ex = state("", "012");
    assert!(or_do(match_one_char('1'), match_one_char('2')).apply(&ex).is_none());
}

#[test]
fn pipeline_of_three_digits() {
    let ex = state("", "112");
    let d = match_range('0', '9');
    let r = then_do(then_do(then_do(Some(ex), &d), &d), &d)
        .expect("all three characters are digits");
    assert_eq!(r.matched, "112");
    assert_eq!(r.remained, "");
}

#[test]
fn pipeline_with_alternation() {
    let ex = state("", "012");
    let d = match_range('0', '9');
    let first = or_do(match_one_char('1'), match_one_char('0'));
    let r = then_do(then_do(Some(ex), &first), &d).expect("'0' then a digit");
    assert_eq!(r.matched, "01");
    assert_eq!(r.remained, "2");
}

#[test]
fn pipeline_failure_leaves_no_partial_result() {
    let ex = state("", "1a2");
    let d = match_range('0', '9');
    assert!(then_do(then_do(then_do(Some(ex), &d), &d), &d).is_none());
}

#[test]
fn concatenation_is_kept_at_every_step() {
    let input = "a\u{597d}9z";
    let mut current = state("", input);
    let steps = [
        match_range('a', 'z'),
        or_do(match_one_char('x'), match_range('\u{4e00}', '\u{9fff}')),
        match_range('0', '9'),
        match_one_char('z'),
    ];
    for m in steps.iter() {
        current = m.apply(&current).expect("every step matches");
        let whole = format!("{}{}", current.matched, current.remained);
        assert_eq!(whole, input);
    }
    assert_eq!(current.matched, input);
    assert_eq!(current.remained, "");
}

#[test]
fn clone_keeps_both_fields() {
    let ex = state("11", "2");
    let copy = ex.clone();
    assert_eq!(copy.matched, ex.matched);
    assert_eq!(copy.remained, ex.remained);
}

#[test]
fn new_builds_the_given_state() {
    let ex = Matchee::new("ab".to_string(), "cd".to_string());
    assert_eq!(ex.matched, "ab");
    assert_eq!(ex.remained, "cd");
}
