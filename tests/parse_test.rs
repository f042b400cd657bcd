use crabcleaner::{Rule, Verb};

fn texts_of(rule: &Rule) -> Vec<String> {
    rule.get_tokens().clone()
}

#[test]
fn sanctioned_pairs_parse_as_valid() {
    for line in ["mv a to b", "pre a with b", "suf a with b", "  mv   a to b  "] {
        let rule = Rule::new_from_line(&line.to_string(), &0);
        assert!(*rule.is_valid(), "{}", line);
        assert_eq!("", rule.get_error_message());
        assert_eq!(&1, rule.get_line_number());
        assert_eq!(4, rule.get_tokens().len());
    }
}

#[test]
fn extra_fragments_after_the_fourth_are_ignored() {
    let rule = Rule::new_from_line(&"pre x with y z".to_string(), &4);
    assert!(*rule.is_valid());
    assert_eq!(vec!["pre", "x", "with", "y"], texts_of(&rule));
    assert_eq!(&5, rule.get_line_number());
}

#[test]
fn short_lines_miss_parts() {
    for line in ["mv", "mv a", "mv a to", "mv a to // b c"] {
        let rule = Rule::new_from_line(&line.to_string(), &6);
        assert!(!*rule.is_valid());
        assert_eq!("Missing keyword(s) or pattern(s).", rule.get_error_message());
        assert_eq!(&7, rule.get_line_number());
        assert!(rule.get_tokens().is_empty());
    }
}

#[test]
fn blank_lines_are_skipped() {
    for line in ["", "   ", "// only a comment", "  \r", "\t"] {
        let rule = Rule::new_from_line(&line.to_string(), &3);
        assert_eq!(&0, rule.get_line_number());
        assert!(*rule.is_valid());
        assert!(rule.get_tokens().is_empty());
        assert_eq!("", rule.get_error_message());
    }
}

#[test]
fn comment_does_not_change_tokens() {
    let with_comment = Rule::new_from_line(&"mv a to b // note".to_string(), &2);
    let without = Rule::new_from_line(&"mv a to b".to_string(), &2);
    assert_eq!(texts_of(&without), texts_of(&with_comment));
    assert_eq!(without.get_line_value(), with_comment.get_line_value());
    assert_eq!("mv a to b", with_comment.get_line_value());
}

#[test]
fn parsing_twice_gives_the_same_rule() {
    let line = "suf *.log with _old // keep".to_string();
    let a = Rule::new_from_line(&line, &9);
    let b = Rule::new_from_line(&line, &9);
    assert_eq!(a.get_line_number(), b.get_line_number());
    assert_eq!(a.get_line_value(), b.get_line_value());
    assert_eq!(a.is_valid(), b.is_valid());
    assert_eq!(texts_of(&a), texts_of(&b));
    assert_eq!(a.get_error_message(), b.get_error_message());
    assert_eq!(a.get_first_keyword(), b.get_first_keyword());
    assert_eq!(a.get_first_pattern(), b.get_first_pattern());
    assert_eq!(a.get_second_keyword(), b.get_second_keyword());
    assert_eq!(a.get_second_pattern(), b.get_second_pattern());
}

#[test]
fn move_line_of_the_default_configuration() {
    let rule = Rule::new_from_line(&"mv file.mp3 to C:\\Users\\Username\\Music".to_string(), &0);
    assert_eq!(
        vec!["mv", "file.mp3", "to", "C:\\Users\\Username\\Music"],
        texts_of(&rule)
    );
    assert!(*rule.is_valid());
    assert_eq!(Some(Verb::Move), rule.verb());
}

#[test]
fn roles_are_positional() {
    let rule = Rule::new_from_line(&"pre IMG_ with *.png".to_string(), &0);
    assert!(*rule.is_valid());
    assert_eq!("pre", rule.get_first_keyword());
    assert_eq!("IMG_", rule.get_first_pattern());
    assert_eq!("with", rule.get_second_keyword());
    assert_eq!("*.png", rule.get_second_pattern());
    assert_eq!(Some(Verb::Prefix), rule.verb());
}

#[test]
fn invalid_first_keyword_keeps_no_token() {
    let rule = Rule::new_from_line(&"cp a to b".to_string(), &0);
    assert!(!*rule.is_valid());
    assert_eq!("Invalid first keyword.", rule.get_error_message());
    assert!(rule.get_tokens().is_empty());
    assert_eq!("", rule.get_first_keyword());
}

#[test]
fn invalid_second_keyword_keeps_two_tokens() {
    let rule = Rule::new_from_line(&"mv a into b".to_string(), &0);
    assert!(!*rule.is_valid());
    assert_eq!("Invalid second keyword.", rule.get_error_message());
    assert_eq!(vec!["mv", "a"], texts_of(&rule));
    assert_eq!("mv", rule.get_first_keyword());
    assert_eq!("a", rule.get_first_pattern());
    assert_eq!("", rule.get_second_keyword());
    assert_eq!("", rule.get_second_pattern());
}

#[test]
fn unpaired_keywords_are_refused() {
    let rule = Rule::new_from_line(&"mv a with b".to_string(), &0);
    assert!(!*rule.is_valid());
    assert_eq!("Keywords' pair doesn't exists.", rule.get_error_message());
    assert_eq!(vec!["mv", "a", "with", "b"], texts_of(&rule));
    assert_eq!(None, rule.verb());
}

#[test]
fn tokens_split_on_spaces_only() {
    let rule = Rule::new_from_line(&"mv\ta to b".to_string(), &0);
    assert!(!*rule.is_valid());
    assert_eq!("Missing keyword(s) or pattern(s).", rule.get_error_message());
}

#[test]
fn rule_new_and_add_token() {
    let mut rule = Rule::new(
        String::from("x"),
        7,
        false,
        vec![],
        String::from("e"),
        String::from("a"),
        String::from("b"),
        String::from("c"),
        String::from("d"),
    );
    rule.add_token(String::from("t"));
    assert_eq!(vec!["t"], texts_of(&rule));
    assert_eq!(&String::from("t"), rule.get_token(0));
    assert_eq!(&7, rule.get_line_number());
    assert_eq!("x", rule.get_line_value());
    assert_eq!("e", rule.get_error_message());
}
