//! The decisions of rule execution. The caller lists the directory, asks the
//! questions, touches the files and prints the lines; this module says what to
//! do at each point and with which text.
use vstd::prelude::*;
use crate::rule::{Rule, RuleView};
use crate::text::texts;

verus! {

/// The three actions of the language.
#[derive(Clone, Copy, Debug, PartialEq, Eq, Structural)]
pub enum Verb {
    Move,
    Prefix,
    Suffix,
}

/// The action of a rule, when its verb and preposition pair up.
pub open spec fn verb_of(r: RuleView) -> Option<Verb> {
    if r.first_keyword == "mv"@ && r.second_keyword == "to"@ {
        Some(Verb::Move)
    } else if r.first_keyword == "pre"@ && r.second_keyword == "with"@ {
        Some(Verb::Prefix)
    } else if r.first_keyword == "suf"@ && r.second_keyword == "with"@ {
        Some(Verb::Suffix)
    } else {
        None
    }
}

/// The decimal digits of `n`.
pub open spec fn decimal(n: nat) -> Seq<char>
    decreases n,
{
    if n < 10 {
        seq!["0123456789"@[n as int]]
    } else {
        decimal(n / 10) + seq!["0123456789"@[(n % 10) as int]]
    }
}

/// The line printed for a rule that cannot run.
pub open spec fn invalid_line(r: RuleView) -> Seq<char> {
    "error: rule line "@ + decimal(r.line_number) + " is invalid."@
}

/// The line printed for a rule whose action succeeded.
pub open spec fn success_line(r: RuleView) -> Seq<char> {
    "success: rule line "@ + decimal(r.line_number) + " - "@ + r.line_value
}

/// The line printed for a valid rule whose keywords name no action.
pub open spec fn unhandled_line(r: RuleView) -> Seq<char> {
    "error: rule line "@ + decimal(r.line_number) + ",token "@ + r.first_keyword + " and "@
        + r.second_keyword + " are not handled."@
}

/// The line that describes the action of a rule instead of performing it.
pub open spec fn dry_run_line(r: RuleView, v: Verb) -> Seq<char> {
    let head = "[dry-run][line "@ + decimal(r.line_number) + "] "@;
    match v {
        Verb::Move => head + "move all files following the pattern `"@ + r.first_pattern
            + "` to `"@ + r.second_pattern + "`"@,
        Verb::Prefix => head + "add prefix `"@ + r.second_pattern
            + "` to all files following the pattern `"@ + r.first_pattern + "`"@,
        Verb::Suffix => head + "add suffix `"@ + r.second_pattern
            + "` to all files following the pattern `"@ + r.first_pattern + "`"@,
    }
}

/// The question asked before the action of a rule on `file`.
pub open spec fn question_line(r: RuleView, v: Verb, file: Seq<char>) -> Seq<char> {
    let (verb, prep) = match v {
        Verb::Move => ("move"@, " to "@),
        Verb::Prefix => ("prefix"@, " with "@),
        Verb::Suffix => ("suffix"@, " with "@),
    };
    "Are you sure you want to "@ + verb + " "@ + file + prep + r.second_pattern + " ? (y or n)"@
}

/// What executing a rule does first.
pub enum Opening {
    /// Print this line; nothing else happens.
    Report(String),
    /// List the directory and go through the files that the rule concerns.
    Scan,
}

/// The opening of the execution of rule `r`.
pub open spec fn opening_of(r: RuleView, dry_run: bool, interactive: bool) -> Option<Seq<char>> {
    if r.error_message.len() != 0 {
        Some(invalid_line(r))
    } else if verb_of(r) is None {
        Some(unhandled_line(r))
    } else if dry_run && !interactive {
        Some(dry_run_line(r, verb_of(r)->0))
    } else {
        None
    }
}

/// The decimal digits of `n`.
pub fn decimal_text(n: usize) -> (r: String)
    ensures
        r@ == decimal(n as nat),
    decreases n,
{
    let digits = "0123456789";
    proof {
        reveal_strlit("0123456789");
    }
    if n < 10 {
        let d = digits.substring_char(n, n + 1);
        assert(d@ =~= seq!["0123456789"@[n as int]]);
        String::from_str(d)
    } else {
        let mut s = decimal_text(n / 10);
        let m = n % 10;
        let d = digits.substring_char(m, m + 1);
        assert(d@ =~= seq!["0123456789"@[m as int]]);
        s.append(d);
        s
    }
}

/// `a` followed by `b`.
fn joined(a: &str, b: &str) -> (r: String)
    ensures
        r@ == a@ + b@,
{
    let mut r = String::from_str(a);
    r.append(b);
    r
}

impl Rule {
    /// The action of the rule, when its verb and preposition pair up.
    pub fn verb(&self) -> (r: Option<Verb>)
        ensures
            r == verb_of(self@),
    {
        let fk = self.get_first_keyword();
        let sk = self.get_second_keyword();
        if *fk == String::from_str("mv") && *sk == String::from_str("to") {
            Some(Verb::Move)
        } else if *fk == String::from_str("pre") && *sk == String::from_str("with") {
            Some(Verb::Prefix)
        } else if *fk == String::from_str("suf") && *sk == String::from_str("with") {
            Some(Verb::Suffix)
        } else {
            None
        }
    }

    /// The line printed when the rule cannot run.
    pub fn invalid_message(&self) -> (r: String)
        ensures
            r@ == invalid_line(self@),
    {
        let mut s = String::from_str("error: rule line ");
        s.append(decimal_text(*self.get_line_number()).as_str());
        s.append(" is invalid.");
        s
    }

    /// The line printed when the action of the rule succeeded.
    pub fn success_message(&self) -> (r: String)
        ensures
            r@ == success_line(self@),
    {
        let mut s = String::from_str("success: rule line ");
        s.append(decimal_text(*self.get_line_number()).as_str());
        s.append(" - ");
        s.append(self.get_line_value().as_str());
        s
    }

    /// The line printed for keywords that name no action.
    pub fn unhandled_message(&self) -> (r: String)
        ensures
            r@ == unhandled_line(self@),
    {
        let mut s = String::from_str("error: rule line ");
        s.append(decimal_text(*self.get_line_number()).as_str());
        s.append(",token ");
        s.append(self.get_first_keyword().as_str());
        s.append(" and ");
        s.append(self.get_second_keyword().as_str());
        s.append(" are not handled.");
        s
    }

    /// The line that describes the action `v` of the rule.
    pub fn dry_run_message(&self, v: Verb) -> (r: String)
        ensures
            r@ == dry_run_line(self@, v),
    {
        let mut s = String::from_str("[dry-run][line ");
        s.append(decimal_text(*self.get_line_number()).as_str());
        s.append("] ");
        let fp = self.get_first_pattern().as_str();
        let sp = self.get_second_pattern().as_str();
        match v {
            Verb::Move => {
                s.append("move all files following the pattern `");
                s.append(fp);
                s.append("` to `");
                s.append(sp);
            },
            Verb::Prefix => {
                s.append("add prefix `");
                s.append(sp);
                s.append("` to all files following the pattern `");
                s.append(fp);
            },
            Verb::Suffix => {
                s.append("add suffix `");
                s.append(sp);
                s.append("` to all files following the pattern `");
                s.append(fp);
            },
        }
        s.append("`");
        s
    }

    /// The question asked before action `v` of the rule on `file`.
    pub fn question(&self, v: Verb, file: &String) -> (r: String)
        ensures
            r@ == question_line(self@, v, file@),
    {
        let (verb, prep) = match v {
            Verb::Move => ("move", " to "),
            Verb::Prefix => ("prefix", " with "),
            Verb::Suffix => ("suffix", " with "),
        };
        let mut s = String::from_str("Are you sure you want to ");
        s.append(verb);
        s.append(" ");
        s.append(file.as_str());
        s.append(prep);
        s.append(self.get_second_pattern().as_str());
        s.append(" ? (y or n)");
        s
    }

    /// What executing the rule does first: report at once (an invalid rule,
    /// keywords that name no action, or a dry run without questions), or go
    /// through the files.
    pub fn begin(&self, dry_run: bool, interactive: bool) -> (r: Opening)
        ensures
            match r {
                Opening::Report(line) => opening_of(self@, dry_run, interactive) == Some(line@),
                Opening::Scan => opening_of(self@, dry_run, interactive) is None,
            },
    {
        if self.get_error_message().as_str().unicode_len() != 0 {
            return Opening::Report(self.invalid_message());
        }
        match self.verb() {
            None => Opening::Report(self.unhandled_message()),
            Some(v) => {
                if dry_run && !interactive {
                    Opening::Report(self.dry_run_message(v))
                } else {
                    Opening::Scan
                }
            },
        }
    }
}

/// The reply to a question.
#[derive(Clone, Copy, Debug, PartialEq, Eq, Structural)]
pub enum Answer {
    Yes,
    No,
    /// Neither `y` nor `n`: ask again.
    Again,
}

/// `s` without its carriage returns and line feeds.
pub open spec fn without_line_breaks(s: Seq<char>) -> Seq<char>
    decreases s.len(),
{
    if s.len() == 0 {
        Seq::empty()
    } else {
        without_line_breaks(s.drop_last()) + if s.last() == '\r' || s.last() == '\n' {
            Seq::empty()
        } else {
            seq![s.last()]
        }
    }
}

/// The reply that input line `s` gives.
pub open spec fn answer_of(s: Seq<char>) -> Answer {
    if without_line_breaks(s) == "y"@ {
        Answer::Yes
    } else if without_line_breaks(s) == "n"@ {
        Answer::No
    } else {
        Answer::Again
    }
}

/// The reply that an input line gives.
pub fn read_answer(input: &String) -> (r: Answer)
    ensures
        r == answer_of(input@),
{
    let text = input.as_str();
    let n = text.unicode_len();
    let mut kept = String::new();
    let mut i: usize = 0;
    while i < n
        invariant
            n == text@.len(),
            text@ == input@,
            i <= n,
            kept@ == without_line_breaks(text@.take(i as int)),
        decreases n - i,
    {
        assert(text@.take(i + 1).drop_last() =~= text@.take(i as int));
        let c = text.get_char(i);
        if c != '\r' && c != '\n' {
            let one = text.substring_char(i, i + 1);
            assert(one@ =~= seq![c]);
            kept.append(one);
        }
        i += 1;
        assert(kept@ =~= without_line_breaks(text@.take(i as int)));
    }
    assert(text@.take(n as int) =~= text@);
    if kept == String::from_str("y") {
        Answer::Yes
    } else if kept == String::from_str("n") {
        Answer::No
    } else {
        Answer::Again
    }
}

/// The line printed after a `y` or an `n`.
pub fn acknowledgement(a: Answer) -> (r: Option<String>)
    ensures
        a == Answer::Yes ==> r is Some && r->0@ == "continuing..."@,
        a == Answer::No ==> r is Some && r->0@ == "skipping..."@,
        a == Answer::Again ==> r is None,
{
    match a {
        Answer::Yes => Some(String::from_str("continuing...")),
        Answer::No => Some(String::from_str("skipping...")),
        Answer::Again => None,
    }
}

/// Where the last `.` of `s[..k]` stands, or -1.
pub open spec fn dot_before(s: Seq<char>, k: int) -> int
    decreases k,
{
    if k <= 0 {
        -1
    } else if s[k - 1] == '.' {
        k - 1
    } else {
        dot_before(s, k - 1)
    }
}

/// `name` with `suffix` put just before its last `.`.
pub open spec fn with_suffix(name: Seq<char>, suffix: Seq<char>) -> Seq<char> {
    let d = dot_before(name, name.len() as int);
    name.take(d) + suffix + name.skip(d)
}

/// The path that `file` gets in directory `dir`: joined with `\` unless
/// `file` starts with a separator.
pub open spec fn move_target(dir: Seq<char>, file: Seq<char>) -> Seq<char> {
    if file.len() > 0 && (file[0] == '\\' || file[0] == '/') {
        dir + file
    } else {
        dir + seq!['\\'] + file
    }
}

/// What to do with one file.
pub enum Step {
    /// Print this description; the file is left alone and the rule counts as done.
    Announce(String),
    /// Copy `from` to `to`, then delete `from`.
    Move { from: String, to: String },
    /// Rename `from` to `to`.
    Rename { from: String, to: String },
    /// A suffix is asked for a name that holds no `.`: nothing can be done.
    NoExtension,
}

/// The line that ends the execution of rule `r` once its files were gone
/// through, `done` telling whether an action was announced or succeeded.
pub open spec fn conclusion_of(r: RuleView, done: bool, dry_run: bool, interactive: bool) -> Option<
    Seq<char>,
> {
    if done && !dry_run {
        Some(success_line(r))
    } else if !interactive && !dry_run {
        Some(invalid_line(r))
    } else {
        None
    }
}

/// Whether `s` is what action `v` of rule `r` does with `file`: describe it
/// in a dry run, else move or rename the file.
pub open spec fn is_step_for(r: RuleView, v: Verb, file: Seq<char>, dry_run: bool, s: Step) -> bool {
    match s {
        Step::Announce(line) => dry_run && line@ == dry_run_line(r, v),
        Step::Move { from, to } => !dry_run && v == Verb::Move && from@ == file && to@
            == move_target(r.second_pattern, file),
        Step::Rename { from, to } => !dry_run && from@ == file && ((v == Verb::Prefix && to@
            == r.second_pattern + file) || (v == Verb::Suffix && dot_before(file, file.len() as int)
            >= 0 && to@ == with_suffix(file, r.second_pattern))),
        Step::NoExtension => !dry_run && v == Verb::Suffix && dot_before(file, file.len() as int)
            < 0,
    }
}

/// What the scan of the files of a rule is told.
#[derive(Clone, Copy, Debug)]
pub enum ScanEvent {
    /// The scan begins, at the first file.
    Start,
    /// The reply to the question on the current file.
    Answered(Answer),
    /// The step on the current file was performed; whether it succeeded.
    Performed(bool),
}

/// What the scan of the files of a rule asks for next.
pub enum ScanAction {
    /// Ask this question about the current file.
    Ask(String),
    /// Perform this step on the current file.
    Perform(Step),
    /// The rule is done; print the line, if any.
    Finish(Option<String>),
}

/// The character view of an optional string.
pub open spec fn opt_view(o: Option<String>) -> Option<Seq<char>> {
    match o {
        Some(s) => Some(s@),
        None => None,
    }
}

/// What the scan does on reaching file `j` of `files`: finish when there is
/// none left, ask first in interactive mode, else act on it at once.
pub open spec fn arrives_at(
    r: RuleView,
    v: Verb,
    files: Seq<Seq<char>>,
    j: int,
    dry_run: bool,
    interactive: bool,
    res: (usize, ScanAction),
) -> bool {
    if j >= files.len() {
        res.0 == files.len() && match res.1 {
            ScanAction::Finish(line) => opt_view(line) == conclusion_of(r, false, dry_run, interactive),
            _ => false,
        }
    } else {
        res.0 == j && match res.1 {
            ScanAction::Ask(q) => interactive && q@ == question_line(r, v, files[j]),
            ScanAction::Perform(s) => !interactive && is_step_for(r, v, files[j], dry_run, s),
            _ => false,
        }
    }
}

/// The next move of the scan of `files` by rule `r`, at file `k`, on event `ev`.
pub open spec fn scan_next(
    r: RuleView,
    v: Verb,
    files: Seq<Seq<char>>,
    k: int,
    ev: ScanEvent,
    dry_run: bool,
    interactive: bool,
    res: (usize, ScanAction),
) -> bool {
    match ev {
        ScanEvent::Start => arrives_at(r, v, files, k, dry_run, interactive, res),
        ScanEvent::Answered(Answer::No) => arrives_at(r, v, files, k + 1, dry_run, interactive, res),
        ScanEvent::Answered(Answer::Yes) => res.0 == k && match res.1 {
            ScanAction::Perform(s) => is_step_for(r, v, files[k], dry_run, s),
            _ => false,
        },
        ScanEvent::Answered(Answer::Again) => res.0 == k && match res.1 {
            ScanAction::Ask(q) => q@ == question_line(r, v, files[k]),
            _ => false,
        },
        ScanEvent::Performed(ok) => res.0 == k && match res.1 {
            ScanAction::Finish(line) => opt_view(line) == conclusion_of(r, ok, dry_run, interactive),
            _ => false,
        },
    }
}

/// Position of the last `.` of `s`, if any.
fn last_dot(s: &str) -> (r: Option<usize>)
    ensures
        match r {
            Some(d) => d as int == dot_before(s@, s@.len() as int) && d < s@.len(),
            None => dot_before(s@, s@.len() as int) == -1,
        },
{
    let n = s.unicode_len();
    let mut k: usize = n;
    while k > 0 && s.get_char(k - 1) != '.'
        invariant
            n == s@.len(),
            k <= n,
            dot_before(s@, k as int) == dot_before(s@, n as int),
        decreases k,
    {
        k -= 1;
    }
    if k == 0 {
        None
    } else {
        Some(k - 1)
    }
}

impl Rule {
    /// What action `v` of the rule does with `file`: describe it in a dry run,
    /// else move or rename the file.
    pub fn act(&self, v: Verb, file: &String, dry_run: bool) -> (r: Step)
        ensures
            is_step_for(self@, v, file@, dry_run, r),
    {
        if dry_run {
            return Step::Announce(self.dry_run_message(v));
        }
        let sp = self.get_second_pattern().as_str();
        let name = file.as_str();
        match v {
            Verb::Move => {
                let n = name.unicode_len();
                let to = if n > 0 && (name.get_char(0) == '\\' || name.get_char(0) == '/') {
                    joined(sp, name)
                } else {
                    let mut t = joined(sp, "\\");
                    proof {
                        reveal_strlit("\\");
                    }
                    t.append(name);
                    assert(t@ =~= sp@ + seq!['\\'] + name@);
                    t
                };
                assert(to@ == move_target(self@.second_pattern, file@));
                Step::Move { from: file.clone(), to }
            },
            Verb::Prefix => Step::Rename { from: file.clone(), to: joined(sp, name) },
            Verb::Suffix => {
                match last_dot(name) {
                    None => Step::NoExtension,
                    Some(d) => {
                        let n = name.unicode_len();
                        let mut to = String::from_str(name.substring_char(0, d));
                        to.append(sp);
                        to.append(name.substring_char(d, n));
                        assert(to@ =~= with_suffix(file@, self@.second_pattern));
                        Step::Rename { from: file.clone(), to }
                    },
                }
            },
        }
    }

    /// The line that ends the execution, if any: success when an action was
    /// performed, an error when nothing was done outside dry runs and questions.
    pub fn conclusion(&self, done: bool, dry_run: bool, interactive: bool) -> (r: Option<String>)
        ensures
            match r {
                Some(line) => conclusion_of(self@, done, dry_run, interactive) == Some(line@),
                None => conclusion_of(self@, done, dry_run, interactive) is None,
            },
    {
        if done && !dry_run {
            Some(self.success_message())
        } else if !interactive && !dry_run {
            Some(self.invalid_message())
        } else {
            None
        }
    }

    /// Where the scan goes on reaching file `j`: finish when there is none
    /// left, ask first in interactive mode, else act on it at once.
    fn arrive(&self, v: Verb, files: &Vec<String>, j: usize, dry_run: bool, interactive: bool) -> (r:
        (usize, ScanAction))
        requires
            verb_of(self@) == Some(v),
            j <= files@.len(),
        ensures
            arrives_at(self@, v, texts(files@), j as int, dry_run, interactive, r),
    {
        if j == files.len() {
            let line = self.conclusion(false, dry_run, interactive);
            (j, ScanAction::Finish(line))
        } else if interactive {
            (j, ScanAction::Ask(self.question(v, &files[j])))
        } else {
            (j, ScanAction::Perform(self.act(v, &files[j], dry_run)))
        }
    }

    /// One move of the scan of the files that action `v` of the rule
    /// concerns, at file `k`, on event `ev`. The scan acts on the first file
    /// it gets to (in interactive mode, the first one confirmed with `y`)
    /// and then finishes; an `n` passes to the next file.
    pub fn scan_step(
        &self,
        v: Verb,
        files: &Vec<String>,
        k: usize,
        ev: ScanEvent,
        dry_run: bool,
        interactive: bool,
    ) -> (r: (usize, ScanAction))
        requires
            verb_of(self@) == Some(v),
            k <= files@.len(),
            ev matches ScanEvent::Answered(a) && a != Answer::No ==> k < files@.len(),
        ensures
            scan_next(self@, v, texts(files@), k as int, ev, dry_run, interactive, r),
            interactive && ev == ScanEvent::Answered(Answer::No) ==> !(r.1 is Perform),
    {
        match ev {
            ScanEvent::Start => self.arrive(v, files, k, dry_run, interactive),
            ScanEvent::Answered(Answer::No) => {
                if k == files.len() {
                    self.arrive(v, files, k, dry_run, interactive)
                } else {
                    self.arrive(v, files, k + 1, dry_run, interactive)
                }
            },
            ScanEvent::Answered(Answer::Yes) => (k, ScanAction::Perform(self.act(v, &files[k], dry_run))),
            ScanEvent::Answered(Answer::Again) => (k, ScanAction::Ask(self.question(v, &files[k]))),
            ScanEvent::Performed(ok) => (k, ScanAction::Finish(self.conclusion(ok, dry_run, interactive))),
        }
    }
}

} // verus!
