use std::cmp::Ordering;

use step_directives::decimal::parse_size;
use step_directives::error::DirectiveError;
use step_directives::step::Step;

fn step(text: &str) -> Step {
    Step::parse(text).unwrap()
}

#[test]
fn parses_plain_number() {
    assert_eq!(Step::parse("3"), Ok(Step::Numbered { major: 3, minor: None }));
    assert_eq!(Step::parse("0"), Ok(Step::Numbered { major: 0, minor: None }));
    assert_eq!(Step::parse("12"), Ok(Step::Numbered { major: 12, minor: None }));
}

#[test]
fn parses_number_with_letter() {
    assert_eq!(Step::parse("3.B"), Ok(Step::Numbered { major: 3, minor: Some('B') }));
    assert_eq!(Step::parse("10.Z"), Ok(Step::Numbered { major: 10, minor: Some('Z') }));
}

#[test]
fn empty_text_is_the_start() {
    assert_eq!(Step::parse(""), Ok(Step::Start));
    assert!(step("").is_start());
    assert!(!step("0").is_start());
}

#[test]
fn rejects_other_shapes() {
    for text in ["3.b", "3.", ".A", "3.BC", "3.B.C", "start", "x", "-1", "+1", "3 ", " 3", "3.1", "٣"] {
        assert_eq!(Step::parse(text), Err(DirectiveError::InvalidStep), "{text}");
    }
}

#[test]
fn number_must_fit() {
    assert_eq!(
        Step::parse("18446744073709551615"),
        Ok(Step::Numbered { major: u64::MAX, minor: None })
    );
    assert_eq!(Step::parse("18446744073709551616"), Err(DirectiveError::InvalidStep));
    assert_eq!(Step::parse("99999999999999999999999.A"), Err(DirectiveError::InvalidStep));
}

#[test]
fn formats_canonically() {
    assert_eq!(step("0").format(), "0");
    assert_eq!(step("3.B").format(), "3.B");
    assert_eq!(step("120").format(), "120");
    assert_eq!(Step::Start.format(), "start");
    assert_eq!(Step::Numbered { major: u64::MAX, minor: Some('Q') }.format(), "18446744073709551615.Q");
}

#[test]
fn format_of_parse_strips_leading_zeros() {
    assert_eq!(step("007").format(), "7");
    assert_eq!(step("007.B").format(), "7.B");
    assert_eq!(step("000").format(), "0");
    assert_eq!(step("10").format(), "10");
}

#[test]
fn parse_of_format_gives_the_step_back() {
    for s in [
        Step::Numbered { major: 0, minor: None },
        Step::Numbered { major: 9, minor: Some('A') },
        Step::Numbered { major: 10, minor: Some('Z') },
        Step::Numbered { major: 4096, minor: None },
    ] {
        assert_eq!(Step::parse(&s.format()), Ok(s));
    }
    assert_eq!(Step::parse(&Step::Start.format()), Err(DirectiveError::InvalidStep));
}

#[test]
fn order_of_the_tutorial() {
    let chain = [Step::Start, step("0"), step("1"), step("1.A"), step("1.B"), step("2")];
    for i in 0..chain.len() {
        for j in 0..chain.len() {
            let expected = i.cmp(&j);
            assert_eq!(chain[i].compare(&chain[j]), expected);
            assert_eq!(chain[i].cmp(&chain[j]), expected);
        }
    }
}

#[test]
fn order_goes_by_number_first() {
    assert_eq!(step("2").compare(&step("10")), Ordering::Less);
    assert_eq!(step("2.Z").compare(&step("3")), Ordering::Less);
    assert_eq!(step("3.A").compare(&step("3.A")), Ordering::Equal);
    assert_eq!(step("3.C").compare(&step("3.B")), Ordering::Greater);
}

#[test]
fn sizes_are_plain_digits() {
    assert_eq!(parse_size("40"), Some(40));
    assert_eq!(parse_size("0"), Some(0));
    assert_eq!(parse_size("0012"), Some(12));
    assert_eq!(parse_size(""), None);
    assert_eq!(parse_size("4a"), None);
    assert_eq!(parse_size("+4"), None);
    assert_eq!(parse_size("99999999999999999999999"), None);
}
