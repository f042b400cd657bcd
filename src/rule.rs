//! A rule: one line of a configuration, parsed and checked against the grammar
//! `<verb> <pattern> <preposition> <target>`.
use vstd::prelude::*;
use crate::text::{
    chars_of, comment_start, lemma_comment_from_append, lemma_trim_end_last, lemma_words_last,
    line_value, split_words, strip_comment, texts, trim_end, value_len, words,
};

verus! {

/// What a rule holds, as mathematical values.
pub struct RuleView {
    pub line_number: nat,
    pub line_value: Seq<char>,
    pub valid: bool,
    pub tokens: Seq<Seq<char>>,
    pub error_message: Seq<char>,
    pub first_keyword: Seq<char>,
    pub first_pattern: Seq<char>,
    pub second_keyword: Seq<char>,
    pub second_pattern: Seq<char>,
}

pub open spec fn missing_message() -> Seq<char> {
    "Missing keyword(s) or pattern(s)."@
}

pub open spec fn invalid_first_message() -> Seq<char> {
    "Invalid first keyword."@
}

pub open spec fn invalid_second_message() -> Seq<char> {
    "Invalid second keyword."@
}

pub open spec fn pair_message() -> Seq<char> {
    "Keywords' pair doesn't exists."@
}

/// A verb: `mv`, `pre` or `suf`.
pub open spec fn is_first_keyword(t: Seq<char>) -> bool {
    t == "mv"@ || t == "pre"@ || t == "suf"@
}

/// A preposition: `to` or `with`.
pub open spec fn is_second_keyword(t: Seq<char>) -> bool {
    t == "to"@ || t == "with"@
}

/// The three verb and preposition pairs of the grammar.
pub open spec fn is_sanctioned_pair(a: Seq<char>, b: Seq<char>) -> bool {
    (a == "mv"@ && b == "to"@) || (a == "pre"@ && b == "with"@) || (a == "suf"@ && b == "with"@)
}

/// The error that token `t` raises at position `i`, if any.
pub open spec fn position_error(t: Seq<char>, i: int) -> Option<Seq<char>> {
    if i == 0 && !is_first_keyword(t) {
        Some(invalid_first_message())
    } else if i == 2 && !is_second_keyword(t) {
        Some(invalid_second_message())
    } else {
        None
    }
}

/// The `k`-th token, or the empty text when there are not that many.
pub open spec fn token_or_empty(tokens: Seq<Seq<char>>, k: int) -> Seq<char> {
    if k < tokens.len() {
        tokens[k]
    } else {
        Seq::empty()
    }
}

/// A rule whose four named parts are read from its tokens.
pub open spec fn rule_view(
    line_number: nat,
    line_value: Seq<char>,
    valid: bool,
    tokens: Seq<Seq<char>>,
    error_message: Seq<char>,
) -> RuleView {
    RuleView {
        line_number,
        line_value,
        valid,
        tokens,
        error_message,
        first_keyword: token_or_empty(tokens, 0),
        first_pattern: token_or_empty(tokens, 1),
        second_keyword: token_or_empty(tokens, 2),
        second_pattern: token_or_empty(tokens, 3),
    }
}

/// Whether the fragments of a line make it a line to skip.
pub open spec fn is_blank(ws: Seq<Seq<char>>) -> bool {
    ws.len() == 0 || (ws.len() == 1 && ws[0] == "\r"@)
}

/// The rule that line `line`, at zero-based position `index`, stands for.
pub open spec fn parsed(line: Seq<char>, index: nat) -> RuleView {
    let value = line_value(line);
    let ws = words(value);
    if is_blank(ws) {
        rule_view(0, value, true, Seq::empty(), Seq::empty())
    } else if ws.len() < 4 {
        rule_view(index + 1, value, false, Seq::empty(), missing_message())
    } else if !is_first_keyword(ws[0]) {
        rule_view(index + 1, value, false, Seq::empty(), invalid_first_message())
    } else if !is_second_keyword(ws[2]) {
        rule_view(index + 1, value, false, ws.take(2), invalid_second_message())
    } else if !is_sanctioned_pair(ws[0], ws[2]) {
        rule_view(index + 1, value, false, ws.take(4), pair_message())
    } else {
        rule_view(index + 1, value, true, ws.take(4), Seq::empty())
    }
}

/// A line of a configuration, with the outcome of its parsing.
#[derive(Clone, Debug)]
pub struct Rule {
    line_number: usize,
    line_value: String,
    valid: bool,
    tokens: Vec<String>,
    error_message: String,
    first_keyword: String,
    first_pattern: String,
    second_keyword: String,
    second_pattern: String,
}

impl View for Rule {
    type V = RuleView;

    closed spec fn view(&self) -> RuleView {
        RuleView {
            line_number: self.line_number as nat,
            line_value: self.line_value@,
            valid: self.valid,
            tokens: texts(self.tokens@),
            error_message: self.error_message@,
            first_keyword: self.first_keyword@,
            first_pattern: self.first_pattern@,
            second_keyword: self.second_keyword@,
            second_pattern: self.second_pattern@,
        }
    }
}

/// A copy of `v`.
pub fn copy_texts(v: &Vec<String>) -> (r: Vec<String>)
    ensures
        texts(r@) == texts(v@),
{
    let mut r: Vec<String> = Vec::new();
    let mut i: usize = 0;
    while i < v.len()
        invariant
            i <= v@.len(),
            texts(r@) == texts(v@).take(i as int),
        decreases v@.len() - i,
    {
        let c = v[i].clone();
        assert(c@ == v@[i as int]@);
        let ghost prev = r@;
        r.push(c);
        assert(r@ == prev.push(c));
        assert(texts(r@) =~= texts(prev).push(c@));
        assert(texts(v@).take(i + 1) =~= texts(v@).take(i as int).push(texts(v@)[i as int]));
        i += 1;
        assert(texts(r@) =~= texts(v@).take(i as int));
    }
    assert(texts(v@).take(i as int) =~= texts(v@));
    r
}

/// Whether `t` is a verb.
fn is_first_keyword_text(t: &String) -> (r: bool)
    ensures
        r == is_first_keyword(t@),
{
    *t == String::from_str("mv") || *t == String::from_str("pre") || *t == String::from_str("suf")
}

/// Whether `t` is a preposition.
fn is_second_keyword_text(t: &String) -> (r: bool)
    ensures
        r == is_second_keyword(t@),
{
    *t == String::from_str("to") || *t == String::from_str("with")
}

impl Rule {
    /// Line number of the rule in its configuration, from 1; 0 for a skipped line.
    pub fn get_line_number(&self) -> (r: &usize)
        ensures
            *r as nat == self@.line_number,
    {
        &self.line_number
    }

    /// The line without its comment and trailing whitespace.
    pub fn get_line_value(&self) -> (r: &String)
        ensures
            r@ == self@.line_value,
    {
        &self.line_value
    }

    /// Whether the rule passed every check.
    pub fn is_valid(&self) -> (r: &bool)
        ensures
            *r == self@.valid,
    {
        &self.valid
    }

    /// The tokens that were accepted.
    pub fn get_tokens(&self) -> (r: &Vec<String>)
        ensures
            texts(r@) == self@.tokens,
    {
        &self.tokens
    }

    /// The token at `index`.
    pub fn get_token(&self, index: usize) -> (r: &String)
        requires
            index < self@.tokens.len(),
        ensures
            r@ == self@.tokens[index as int],
    {
        &self.tokens[index]
    }

    /// Appends a token.
    pub fn add_token(&mut self, token: String)
        ensures
            final(self)@ == (RuleView { tokens: old(self)@.tokens.push(token@), ..old(self)@ }),
    {
        self.tokens.push(token);
        assert(texts(self.tokens@) =~= texts(old(self).tokens@).push(token@));
    }

    /// Why the rule is invalid; empty when it is valid.
    pub fn get_error_message(&self) -> (r: &String)
        ensures
            r@ == self@.error_message,
    {
        &self.error_message
    }

    /// The verb.
    pub fn get_first_keyword(&self) -> (r: &String)
        ensures
            r@ == self@.first_keyword,
    {
        &self.first_keyword
    }

    /// The preposition.
    pub fn get_second_keyword(&self) -> (r: &String)
        ensures
            r@ == self@.second_keyword,
    {
        &self.second_keyword
    }

    /// The pattern that selects the files.
    pub fn get_first_pattern(&self) -> (r: &String)
        ensures
            r@ == self@.first_pattern,
    {
        &self.first_pattern
    }

    /// The destination directory, prefix or suffix.
    pub fn get_second_pattern(&self) -> (r: &String)
        ensures
            r@ == self@.second_pattern,
    {
        &self.second_pattern
    }

    /// A copy of this rule.
    pub fn duplicate(&self) -> (r: Rule)
        ensures
            r@ == self@,
    {
        Rule {
            line_number: self.line_number,
            line_value: self.line_value.clone(),
            valid: self.valid,
            tokens: copy_texts(&self.tokens),
            error_message: self.error_message.clone(),
            first_keyword: self.first_keyword.clone(),
            first_pattern: self.first_pattern.clone(),
            second_keyword: self.second_keyword.clone(),
            second_pattern: self.second_pattern.clone(),
        }
    }

    /// A rule made of the given parts.
    pub fn new(
        line_value: String,
        line_number: usize,
        valid: bool,
        tokens: Vec<String>,
        error_message: String,
        first_keyword: String,
        first_pattern: String,
        second_keyword: String,
        second_pattern: String,
    ) -> (r: Self)
        ensures
            r@ == (RuleView {
                line_number: line_number as nat,
                line_value: line_value@,
                valid,
                tokens: texts(tokens@),
                error_message: error_message@,
                first_keyword: first_keyword@,
                first_pattern: first_pattern@,
                second_keyword: second_keyword@,
                second_pattern: second_pattern@,
            }),
    {
        Self {
            line_value,
            line_number,
            valid,
            tokens,
            error_message,
            first_keyword,
            first_pattern,
            second_keyword,
            second_pattern,
        }
    }

    /// Checks the verb and preposition pair of four tokens; fewer tokens
    /// keep the state given.
    fn check_pairs(tokens: &Vec<String>, error_state: &bool, error_message: &String) -> (r: (
        bool,
        String,
    ))
        ensures
            tokens@.len() < 4 || is_sanctioned_pair(tokens@[0]@, tokens@[2]@) ==> r.0
                == *error_state && r.1@ == error_message@,
            !(tokens@.len() < 4 || is_sanctioned_pair(tokens@[0]@, tokens@[2]@)) ==> r.0 && r.1@
                == pair_message(),
    {
        if tokens.len() < 4 {
            return (*error_state, error_message.clone());
        }
        let mv = String::from_str("mv");
        let pre = String::from_str("pre");
        let suf = String::from_str("suf");
        let to = String::from_str("to");
        let with = String::from_str("with");
        if (tokens[0] == mv && tokens[2] == to) || (tokens[0] == pre && tokens[2] == with) || (
        tokens[0] == suf && tokens[2] == with) {
            (*error_state, error_message.clone())
        } else {
            (true, String::from_str("Keywords' pair doesn't exists."))
        }
    }

    /// The error that `token` raises at position `i`.
    fn check_error_message(token: &String, i: usize) -> (r: (bool, String))
        requires
            i < 4,
        ensures
            r.0 == position_error(token@, i as int) is Some,
            r.0 ==> r.1@ == position_error(token@, i as int)->0,
            !r.0 ==> r.1@ == Seq::<char>::empty(),
    {
        if i == 0 {
            if !is_first_keyword_text(token) {
                return (true, String::from_str("Invalid first keyword."));
            }
        } else if i == 2 {
            if !is_second_keyword_text(token) {
                return (true, String::from_str("Invalid second keyword."));
            }
        }
        (false, String::new())
    }

    /// The rule of a line that holds nothing.
    fn skipped_rule(line_value: &str, tokens: Vec<String>) -> (r: Self)
        ensures
            r@ == (RuleView {
                line_number: 0,
                line_value: line_value@,
                valid: true,
                tokens: texts(tokens@),
                error_message: Seq::empty(),
                first_keyword: Seq::empty(),
                first_pattern: Seq::empty(),
                second_keyword: Seq::empty(),
                second_pattern: Seq::empty(),
            }),
    {
        Self::new(
            String::from_str(line_value),
            0,
            true,
            tokens,
            String::new(),
            String::new(),
            String::new(),
            String::new(),
            String::new(),
        )
    }

    /// An invalid rule that names none of its parts.
    fn rule_missing_element(
        line_value: &str,
        line_number: usize,
        tokens: Vec<String>,
        message: String,
    ) -> (r: Self)
        ensures
            r@ == (RuleView {
                line_number: line_number as nat,
                line_value: line_value@,
                valid: false,
                tokens: texts(tokens@),
                error_message: message@,
                first_keyword: Seq::empty(),
                first_pattern: Seq::empty(),
                second_keyword: Seq::empty(),
                second_pattern: Seq::empty(),
            }),
    {
        Self::new(
            String::from_str(line_value),
            line_number,
            false,
            tokens,
            message,
            String::new(),
            String::new(),
            String::new(),
            String::new(),
        )
    }

    /// Parses `line`, found at zero-based position `line_number` of its configuration.
    pub fn new_from_line(line: &String, line_number: &usize) -> (r: Self)
        requires
            *line_number < usize::MAX,
        ensures
            r@ == parsed(line@, *line_number as nat),
    {
        let number: usize = *line_number + 1;
        let text: &str = line.as_str();
        let cs = chars_of(text);
        let end = value_len(&cs);
        let value: &str = text.substring_char(0, end);
        let strings = split_words(text, end);
        let ghost ws = texts(strings@);
        assert(value@ =~= line_value(line@));
        assert(line@.take(end as int) =~= line_value(line@));
        let carriage = String::from_str("\r");
        let none: Vec<String> = Vec::new();
        assert(texts(none@) =~= Seq::<Seq<char>>::empty());
        if strings.len() == 0 || (strings.len() == 1 && strings[0] == carriage) {
            return Self::skipped_rule(value, none);
        } else if strings.len() < 4 {
            return Self::rule_missing_element(
                value,
                number,
                none,
                String::from_str("Missing keyword(s) or pattern(s)."),
            );
        }
        let mut tokens: Vec<String> = Vec::new();
        let mut error_message: (bool, String) = (false, String::new());
        let mut i: usize = 0;
        while i < 4
            invariant_except_break
                !error_message.0,
                error_message.1@ == Seq::<char>::empty(),
            invariant
                4 <= strings@.len(),
                ws == texts(strings@),
                i <= 4,
                texts(tokens@) == ws.take(i as int),
                forall|j: int| 0 <= j < i ==> position_error(ws[j], j) is None,
            ensures
                (i == 4 && !error_message.0 && error_message.1@ == Seq::<char>::empty()) || (i < 4
                    && error_message.0 && position_error(ws[i as int], i as int) is Some
                    && error_message.1@ == position_error(ws[i as int], i as int)->0),
            decreases 4 - i,
        {
            let token = strings[i].clone();
            error_message = Self::check_error_message(&token, i);
            if error_message.0 {
                break;
            }
            let ghost prev = tokens@;
            tokens.push(token);
            assert(texts(tokens@) =~= texts(prev).push(token@));
            assert(ws.take(i + 1) =~= ws.take(i as int).push(ws[i as int]));
            i += 1;
        }
        assert(texts(tokens@).len() == i);
        proof {
            if i == 4 {
                assert(position_error(ws[0], 0) is None);
                assert(position_error(ws[2], 2) is None);
                assert(tokens@[0]@ == texts(tokens@)[0]);
                assert(tokens@[2]@ == texts(tokens@)[2]);
            } else if i > 0 {
                assert(position_error(ws[0], 0) is None);
            } else {
                assert(ws.take(0) =~= Seq::<Seq<char>>::empty());
            }
        }
        error_message = Self::check_pairs(&tokens, &error_message.0, &error_message.1);
        let first_keyword = if tokens.len() >= 1 {
            tokens[0].clone()
        } else {
            String::new()
        };
        let first_pattern = if tokens.len() >= 2 {
            tokens[1].clone()
        } else {
            String::new()
        };
        let second_keyword = if tokens.len() >= 3 {
            tokens[2].clone()
        } else {
            String::new()
        };
        let second_pattern = if tokens.len() == 4 {
            tokens[3].clone()
        } else {
            String::new()
        };
        let ghost tv = texts(tokens@);
        assert(first_keyword@ == token_or_empty(tv, 0));
        assert(first_pattern@ == token_or_empty(tv, 1));
        assert(second_keyword@ == token_or_empty(tv, 2));
        assert(second_pattern@ == token_or_empty(tv, 3));
        Self::new(
            String::from_str(value),
            number,
            !error_message.0,
            tokens,
            error_message.1,
            first_keyword,
            first_pattern,
            second_keyword,
            second_pattern,
        )
    }
}

/// A line whose fragments, once its comment is gone, number four or more and
/// start with a verb and a preposition that pair up parses into a valid rule
/// with no error message.
pub proof fn lemma_sanctioned_line_is_valid(line: Seq<char>, index: nat)
    requires
        words(line_value(line)).len() >= 4,
        is_sanctioned_pair(words(line_value(line))[0], words(line_value(line))[2]),
    ensures
        parsed(line, index).valid,
        parsed(line, index).error_message == Seq::<char>::empty(),
        parsed(line, index).line_number == index + 1,
{
}

/// The fragments of a line once its comment and trailing whitespace are gone
/// never reduce to a lone carriage return.
pub proof fn lemma_value_is_not_carriage_return(line: Seq<char>)
    ensures
        words(line_value(line)) != seq!["\r"@],
{
    let v = line_value(line);
    lemma_trim_end_last(strip_comment(line));
    reveal_strlit("\r");
    if v.len() > 0 {
        lemma_words_last(v, 0, 0);
        assert("\r"@.len() == 1);
        assert("\r"@[0] == '\r');
        assert(v.last() != '\r');
        if words(v) == seq!["\r"@] {
            assert(words(v).last() == "\r"@);
            assert(v.last() == '\r');
        }
    } else {
        assert(words(v) =~= Seq::<Seq<char>>::empty());
    }
}

/// A line of one to three fragments parses into an invalid rule that reports
/// missing parts, at position `index + 1`.
pub proof fn lemma_short_line_is_missing_parts(line: Seq<char>, index: nat)
    requires
        1 <= words(line_value(line)).len() <= 3,
    ensures
        !parsed(line, index).valid,
        parsed(line, index).error_message == missing_message(),
        parsed(line, index).line_number == index + 1,
        parsed(line, index).tokens.len() == 0,
{
    lemma_value_is_not_carriage_return(line);
    assert(words(line_value(line)) != seq!["\r"@]);
    if words(line_value(line)).len() == 1 {
        assert(words(line_value(line)) =~= seq![words(line_value(line))[0]]);
    }
}

/// A line with nothing left once its comment and trailing whitespace are gone
/// parses into a skipped rule: line number 0, valid, no tokens.
pub proof fn lemma_blank_line_is_skipped(line: Seq<char>, index: nat)
    requires
        line_value(line).len() == 0,
    ensures
        parsed(line, index).line_number == 0,
        parsed(line, index).valid,
        parsed(line, index).tokens.len() == 0,
        parsed(line, index).error_message.len() == 0,
{
    assert(words(line_value(line)) =~= Seq::<Seq<char>>::empty());
}

/// A comment changes nothing: `s` followed by `//` and any text parses into
/// the same rule as `s`, unless `s` holds no `//` and ends in `/` (then the
/// comment marker would start one character earlier).
pub proof fn lemma_comment_is_ignored(s: Seq<char>, t: Seq<char>, index: nat)
    requires
        comment_start(s) < s.len() || s.len() == 0 || s.last() != '/',
    ensures
        parsed(s + "//"@ + t, index) == parsed(s, index),
{
    reveal_strlit("//");
    assert("//"@ =~= seq!['/', '/']);
    lemma_comment_from_append(s, t, 0);
    let u = s + "//"@ + t;
    assert(u == s + seq!['/', '/'] + t);
    assert(comment_start(u) == comment_start(s));
    assert(strip_comment(u) =~= strip_comment(s));
}

/// Parsing depends on the line and its position alone: two parses of one
/// line at one position give field for field the same rule.
pub proof fn lemma_parse_is_deterministic(line: Seq<char>, index: nat, a: RuleView, b: RuleView)
    requires
        a == parsed(line, index),
        b == parsed(line, index),
    ensures
        a == b,
{
}

} // verus!
