//! A configuration: the rules of one file, in line order.
use vstd::prelude::*;
use crate::rule::{parsed, Rule, RuleView};

verus! {

/// The pieces of `s[start..]` split on `'\n'`, where `s[start..i]` holds no
/// line feed and is the piece being read.
pub open spec fn lines_from(s: Seq<char>, start: int, i: int) -> Seq<Seq<char>>
    decreases s.len() - i,
{
    if i >= s.len() {
        seq![s.subrange(start, s.len() as int)]
    } else if s[i] == '\n' {
        seq![s.subrange(start, i)] + lines_from(s, i + 1, i + 1)
    } else {
        lines_from(s, start, i + 1)
    }
}

/// The lines of `s`: its pieces split on `'\n'`, empty ones included.
pub open spec fn lines(s: Seq<char>) -> Seq<Seq<char>> {
    lines_from(s, 0, 0)
}

/// The rules of the lines `ls`, the skipped ones left out, in order.
pub open spec fn kept_rules(ls: Seq<Seq<char>>) -> Seq<RuleView>
    decreases ls.len(),
{
    if ls.len() == 0 {
        Seq::empty()
    } else {
        let r = parsed(ls.last(), (ls.len() - 1) as nat);
        kept_rules(ls.drop_last()) + if r.line_number != 0 {
            seq![r]
        } else {
            Seq::empty()
        }
    }
}

/// The views of a sequence of rules.
pub open spec fn rule_views(v: Seq<Rule>) -> Seq<RuleView> {
    v.map_values(|r: Rule| r@)
}

/// What a configuration holds, as mathematical values.
pub struct ConfigView {
    pub filename: Seq<char>,
    pub rules: Seq<RuleView>,
}

/// The rules read from one configuration file.
#[derive(Clone, Debug)]
pub struct Config {
    filename: String,
    rules: Vec<Rule>,
}

impl View for Config {
    type V = ConfigView;

    closed spec fn view(&self) -> ConfigView {
        ConfigView { filename: self.filename@, rules: rule_views(self.rules@) }
    }
}

/// The lines of `text`.
fn split_lines(text: &str) -> (r: Vec<String>)
    ensures
        r@.len() == lines(text@).len(),
        forall|k: int| 0 <= k < r@.len() ==> #[trigger] r@[k]@ == lines(text@)[k],
{
    let n = text.unicode_len();
    let ghost s = text@;
    let mut r: Vec<String> = Vec::new();
    let mut start: usize = 0;
    let mut i: usize = 0;
    while i < n
        invariant
            n == s.len(),
            s == text@,
            start <= i <= n,
            r@.len() + lines_from(s, start as int, i as int).len() == lines(s).len(),
            forall|k: int| 0 <= k < r@.len() ==> #[trigger] r@[k]@ == lines(s)[k],
            forall|k: int|
                0 <= k < lines_from(s, start as int, i as int).len() ==> lines(s)[r@.len() + k]
                    == #[trigger] lines_from(s, start as int, i as int)[k],
        decreases n - i,
    {
        if text.get_char(i) == '\n' {
            let piece = String::from_str(text.substring_char(start, i));
            let ghost rest = lines_from(s, (i + 1) as int, (i + 1) as int);
            assert(lines_from(s, start as int, i as int) == seq![s.subrange(start as int, i as int)]
                + rest);
            assert(lines_from(s, start as int, i as int)[0] == s.subrange(start as int, i as int));
            assert forall|k: int| 0 <= k < rest.len() implies lines(s)[r@.len() + 1 + k]
                == #[trigger] rest[k] by {
                assert(lines_from(s, start as int, i as int)[k + 1] == rest[k]);
            }
            r.push(piece);
            start = i + 1;
        }
        i += 1;
    }
    let piece = String::from_str(text.substring_char(start, n));
    assert(lines_from(s, start as int, n as int)[0] == s.subrange(start as int, n as int));
    r.push(piece);
    r
}

/// A copy of a sequence of rules.
fn copy_rules(v: &Vec<Rule>) -> (r: Vec<Rule>)
    ensures
        rule_views(r@) == rule_views(v@),
{
    let mut r: Vec<Rule> = Vec::new();
    let mut i: usize = 0;
    while i < v.len()
        invariant
            i <= v@.len(),
            rule_views(r@) == rule_views(v@).take(i as int),
        decreases v@.len() - i,
    {
        let c = v[i].duplicate();
        let ghost prev = r@;
        r.push(c);
        assert(rule_views(r@) =~= rule_views(prev).push(c@));
        assert(rule_views(v@).take(i + 1) =~= rule_views(v@).take(i as int).push(
            rule_views(v@)[i as int],
        ));
        i += 1;
    }
    assert(rule_views(v@).take(i as int) =~= rule_views(v@));
    r
}

impl Config {
    /// The configuration of file `filename` whose text is `text`: one rule per
    /// line that is not skipped, in line order.
    pub fn new(filename: String, text: String) -> (r: Self)
        ensures
            r@.filename == filename@,
            r@.rules == kept_rules(lines(text@)),
    {
        let conf_lines = split_lines(text.as_str());
        let ghost ls = lines(text@);
        let mut rules: Vec<Rule> = Vec::new();
        let mut i: usize = 0;
        while i < conf_lines.len()
            invariant
                conf_lines@.len() == ls.len(),
                forall|k: int| 0 <= k < ls.len() ==> #[trigger] conf_lines@[k]@ == ls[k],
                i <= ls.len(),
                rule_views(rules@) == kept_rules(ls.take(i as int)),
            decreases ls.len() - i,
        {
            let rule = Rule::new_from_line(&conf_lines[i], &i);
            assert(ls.take(i + 1).drop_last() =~= ls.take(i as int));
            assert(ls.take(i + 1).last() == ls[i as int]);
            if *rule.get_line_number() != 0 {
                let ghost prev = rules@;
                rules.push(rule);
                assert(rule_views(rules@) =~= rule_views(prev).push(rule@));
            }
            i += 1;
        }
        assert(ls.take(i as int) =~= ls);
        Self { filename, rules }
    }

    /// The configuration of the file kept with the tests, whose text is `text`.
    pub fn new_for_test(text: String) -> (r: Self)
        ensures
            r@.filename == "./tests/test.crc"@,
            r@.rules == kept_rules(lines(text@)),
    {
        Self::new(String::from_str("./tests/test.crc"), text)
    }

    /// The name of the file the configuration was read from.
    pub fn get_filename(&self) -> (r: &String)
        ensures
            r@ == self@.filename,
    {
        &self.filename
    }

    /// A copy of the rule at `index`.
    pub fn get_rule(&self, index: usize) -> (r: Rule)
        requires
            index < self@.rules.len(),
        ensures
            r@ == self@.rules[index as int],
    {
        self.rules[index].duplicate()
    }

    /// The rules, in line order.
    pub fn get_rules(&self) -> (r: &Vec<Rule>)
        ensures
            rule_views(r@) == self@.rules,
    {
        &self.rules
    }

    /// A copy of this configuration.
    pub fn duplicate(&self) -> (r: Config)
        ensures
            r@ == self@,
    {
        Config { filename: self.filename.clone(), rules: copy_rules(&self.rules) }
    }
}

} // verus!
