use crabcleaner::{
    acknowledgement, file_name_of, read_answer, select_matches, wildcard_to_regex, Answer, Opening,
    Rule, ScanAction, ScanEvent, Step, Verb,
};

fn rule_at(line: &str, index: usize) -> Rule {
    Rule::new_from_line(&line.to_string(), &index)
}

#[test]
fn wildcard_matches_whole_names() {
    let rule = rule_at("mv *.mp3 to music", 0);
    let entries = vec![
        String::from("C:\\music\\song.mp3"),
        String::from("song.wav"),
        String::from("my.mp3.bak"),
        String::from("dir\\b-c [1].mp3"),
    ];
    assert_eq!(
        Some(vec![String::from("song.mp3"), String::from("b-c [1].mp3")]),
        rule.files_concerned(&entries)
    );
}

#[test]
fn wildcard_on_empty_listing() {
    let rule = rule_at("mv *.mp3 to music", 0);
    assert_eq!(Some(vec![]), rule.files_concerned(&vec![]));
}

#[test]
fn pattern_that_is_no_expression() {
    let rule = rule_at("mv ( to music", 0);
    assert_eq!(None, rule.files_concerned(&vec![String::from("a")]));
}

#[test]
fn dry_run_reports_one_line() {
    let rule = rule_at("mv *.txt to backup", 0);
    match rule.begin(true, false) {
        Opening::Report(line) => assert_eq!(
            "[dry-run][line 1] move all files following the pattern `*.txt` to `backup`",
            line
        ),
        Opening::Scan => panic!("a dry run goes through no file"),
    }
}

#[test]
fn dry_run_lines_of_prefix_and_suffix() {
    let pre = rule_at("pre *.png with IMG_", 9);
    assert_eq!(
        "[dry-run][line 10] add prefix `IMG_` to all files following the pattern `*.png`",
        pre.dry_run_message(Verb::Prefix)
    );
    let suf = rule_at("suf *.png with _old", 122);
    assert_eq!(
        "[dry-run][line 123] add suffix `_old` to all files following the pattern `*.png`",
        suf.dry_run_message(Verb::Suffix)
    );
}

#[test]
fn interactive_no_skips_without_success_line() {
    let rule = rule_at("mv *.txt to backup", 0);
    assert!(matches!(rule.begin(false, true), Opening::Scan));
    assert_eq!(
        "Are you sure you want to move a.txt to backup ? (y or n)",
        rule.question(Verb::Move, &String::from("a.txt"))
    );
    let answer = read_answer(&String::from("n\n"));
    assert_eq!(Answer::No, answer);
    assert_eq!(Some(String::from("skipping...")), acknowledgement(answer));
    assert_eq!(None, rule.conclusion(false, false, true));
}

#[test]
fn answers_are_read_without_line_breaks() {
    assert_eq!(Answer::Yes, read_answer(&String::from("y\r\n")));
    assert_eq!(Answer::No, read_answer(&String::from("n")));
    assert_eq!(Answer::Again, read_answer(&String::from("yes\n")));
    assert_eq!(Answer::Again, read_answer(&String::from("")));
    assert_eq!(Some(String::from("continuing...")), acknowledgement(Answer::Yes));
    assert_eq!(None, acknowledgement(Answer::Again));
}

#[test]
fn questions_of_prefix_and_suffix() {
    let rule = rule_at("pre *.png with IMG_", 0);
    assert_eq!(
        "Are you sure you want to prefix x.png with IMG_ ? (y or n)",
        rule.question(Verb::Prefix, &String::from("x.png"))
    );
    assert_eq!(
        "Are you sure you want to suffix x.png with IMG_ ? (y or n)",
        rule.question(Verb::Suffix, &String::from("x.png"))
    );
}

#[test]
fn invalid_rule_reports_error() {
    let rule = rule_at("mv a", 11);
    match rule.begin(false, false) {
        Opening::Report(line) => assert_eq!("error: rule line 12 is invalid.", line),
        Opening::Scan => panic!("an invalid rule goes through no file"),
    }
}

#[test]
fn unhandled_keywords_are_reported() {
    let rule = Rule::new(
        String::from("mv a with b"),
        4,
        true,
        vec![],
        String::new(),
        String::from("mv"),
        String::from("a"),
        String::from("with"),
        String::from("b"),
    );
    match rule.begin(false, false) {
        Opening::Report(line) => {
            assert_eq!("error: rule line 4,token mv and with are not handled.", line)
        }
        Opening::Scan => panic!("no action for these keywords"),
    }
}

#[test]
fn move_target_joins_with_backslash() {
    let rule = rule_at("mv *.txt to backup", 0);
    match rule.act(Verb::Move, &String::from("a.txt"), false) {
        Step::Move { from, to } => {
            assert_eq!("a.txt", from);
            assert_eq!("backup\\a.txt", to);
        }
        _ => panic!("a move is expected"),
    }
    match rule.act(Verb::Move, &String::from("/a.txt"), false) {
        Step::Move { to, .. } => assert_eq!("backup/a.txt", to),
        _ => panic!("a move is expected"),
    }
}

#[test]
fn prefix_and_suffix_renames() {
    let pre = rule_at("pre *.png with IMG_", 0);
    match pre.act(Verb::Prefix, &String::from("x.png"), false) {
        Step::Rename { from, to } => {
            assert_eq!("x.png", from);
            assert_eq!("IMG_x.png", to);
        }
        _ => panic!("a rename is expected"),
    }
    let suf = rule_at("suf * with _old", 0);
    match suf.act(Verb::Suffix, &String::from("a.b.png"), false) {
        Step::Rename { to, .. } => assert_eq!("a.b_old.png", to),
        _ => panic!("a rename is expected"),
    }
    assert!(matches!(
        suf.act(Verb::Suffix, &String::from("README"), false),
        Step::NoExtension
    ));
}

#[test]
fn dry_run_act_announces() {
    let rule = rule_at("suf *.png with _old", 0);
    match rule.act(Verb::Suffix, &String::from("README"), true) {
        Step::Announce(line) => assert_eq!(
            "[dry-run][line 1] add suffix `_old` to all files following the pattern `*.png`",
            line
        ),
        _ => panic!("an announcement is expected"),
    }
}

#[test]
fn conclusions() {
    let rule = rule_at("mv *.txt to backup", 0);
    assert_eq!(
        Some(String::from("success: rule line 1 - mv *.txt to backup")),
        rule.conclusion(true, false, false)
    );
    assert_eq!(
        Some(String::from("error: rule line 1 is invalid.")),
        rule.conclusion(false, false, false)
    );
    assert_eq!(None, rule.conclusion(true, true, true));
    assert_eq!(None, rule.conclusion(false, true, false));
}

#[test]
fn wildcard_becomes_anchored_expression() {
    assert_eq!("^[\\w\\s\\-\\[\\]]*.mp3$", wildcard_to_regex("*.mp3"));
    assert_eq!("^a.txt$", wildcard_to_regex("a.txt"));
    assert_eq!("^$", wildcard_to_regex(""));
}

#[test]
fn file_name_is_last_backslash_segment() {
    assert_eq!("c.txt", file_name_of("a\\b\\c.txt"));
    assert_eq!("./c.txt", file_name_of("./c.txt"));
    assert_eq!("", file_name_of("dir\\"));
}

#[test]
fn selection_follows_outcomes() {
    let names = vec![String::from("a"), String::from("b"), String::from("c")];
    assert_eq!(
        Some(vec![String::from("a"), String::from("c")]),
        select_matches(&names, &vec![Some(true), Some(false), Some(true)])
    );
    assert_eq!(None, select_matches(&names, &vec![Some(true), None, Some(true)]));
    assert_eq!(Some(vec![]), select_matches(&vec![], &vec![]));
}

#[test]
fn wildcard_does_not_match_commas() {
    let rule = rule_at("mv *.txt to backup", 0);
    let entries = vec![String::from("a,b.txt"), String::from("a b.txt")];
    assert_eq!(Some(vec![String::from("a b.txt")]), rule.files_concerned(&entries));
}

fn two_files() -> Vec<String> {
    vec![String::from("a.txt"), String::from("b.txt")]
}

#[test]
fn scan_acts_on_first_file_without_questions() {
    let rule = rule_at("mv *.txt to backup", 0);
    match rule.scan_step(Verb::Move, &two_files(), 0, ScanEvent::Start, false, false) {
        (0, ScanAction::Perform(Step::Move { from, to })) => {
            assert_eq!("a.txt", from);
            assert_eq!("backup\\a.txt", to);
        }
        _ => panic!("the first file is moved"),
    }
    match rule.scan_step(Verb::Move, &two_files(), 0, ScanEvent::Performed(true), false, false) {
        (0, ScanAction::Finish(line)) => assert_eq!(
            Some(String::from("success: rule line 1 - mv *.txt to backup")),
            line
        ),
        _ => panic!("the rule finishes after one file"),
    }
}

#[test]
fn scan_of_no_file_reports_error() {
    let rule = rule_at("mv *.txt to backup", 0);
    match rule.scan_step(Verb::Move, &vec![], 0, ScanEvent::Start, false, false) {
        (0, ScanAction::Finish(line)) => {
            assert_eq!(Some(String::from("error: rule line 1 is invalid.")), line)
        }
        _ => panic!("nothing to do"),
    }
}

#[test]
fn scan_asks_and_skips_on_no() {
    let rule = rule_at("pre *.txt with old_", 0);
    match rule.scan_step(Verb::Prefix, &two_files(), 0, ScanEvent::Start, false, true) {
        (0, ScanAction::Ask(q)) => {
            assert_eq!("Are you sure you want to prefix a.txt with old_ ? (y or n)", q)
        }
        _ => panic!("a question is expected"),
    }
    let no = ScanEvent::Answered(Answer::No);
    match rule.scan_step(Verb::Prefix, &two_files(), 0, no, false, true) {
        (1, ScanAction::Ask(q)) => {
            assert_eq!("Are you sure you want to prefix b.txt with old_ ? (y or n)", q)
        }
        _ => panic!("the next file is asked about"),
    }
    match rule.scan_step(Verb::Prefix, &two_files(), 1, no, false, true) {
        (2, ScanAction::Finish(None)) => {}
        _ => panic!("no file touched and no line printed"),
    }
}

#[test]
fn scan_asks_again_then_acts_on_yes() {
    let rule = rule_at("suf *.txt with _old", 0);
    let again = ScanEvent::Answered(Answer::Again);
    match rule.scan_step(Verb::Suffix, &two_files(), 1, again, false, true) {
        (1, ScanAction::Ask(q)) => {
            assert_eq!("Are you sure you want to suffix b.txt with _old ? (y or n)", q)
        }
        _ => panic!("the same question again"),
    }
    let yes = ScanEvent::Answered(Answer::Yes);
    match rule.scan_step(Verb::Suffix, &two_files(), 1, yes, false, true) {
        (1, ScanAction::Perform(Step::Rename { from, to })) => {
            assert_eq!("b.txt", from);
            assert_eq!("b_old.txt", to);
        }
        _ => panic!("the confirmed file is renamed"),
    }
    match rule.scan_step(Verb::Suffix, &two_files(), 1, yes, true, true) {
        (1, ScanAction::Perform(Step::Announce(line))) => assert_eq!(
            "[dry-run][line 1] add suffix `_old` to all files following the pattern `*.txt`",
            line
        ),
        _ => panic!("a dry run announces"),
    }
    match rule.scan_step(Verb::Suffix, &two_files(), 1, ScanEvent::Performed(true), true, true) {
        (1, ScanAction::Finish(None)) => {}
        _ => panic!("a dry run prints no success line"),
    }
}
