//! Selection of the files that a rule concerns: its wildcard pattern becomes an
//! anchored regular expression, tested against the last segment of each
//! directory entry.
use vstd::prelude::*;
use crate::rule::Rule;
use crate::text::texts;

verus! {

/// What `regex` gives for expression `source` on `text`: `None` when the
/// expression does not compile, else whether it matches somewhere in `text`.
pub uninterp spec fn regex_outcome(source: Seq<char>, text: Seq<char>) -> Option<bool>;

/// Relies on `regex::Regex::new`, which compiles `source` or fails, and on
/// `regex::Regex::is_match`, which tells whether the compiled expression
/// matches somewhere in `text`; both outcomes depend on `source` and `text` alone.
#[verifier::external_body]
fn regex_match(source: &str, text: &str) -> (r: Option<bool>)
    ensures
        r == regex_outcome(source@, text@),
{
    match regex::Regex::new(source) {
        Ok(re) => Some(re.is_match(text)),
        Err(_) => None,
    }
}

/// What a `*` of a pattern stands for: word characters, whitespace, `-`,
/// `[` and `]`, any number of them.
pub open spec fn star_class() -> Seq<char> {
    "[\\w\\s\\-\\[\\]]*"@
}

/// `p` with each `*` replaced by [`star_class`].
pub open spec fn replace_stars(p: Seq<char>) -> Seq<char>
    decreases p.len(),
{
    if p.len() == 0 {
        Seq::empty()
    } else {
        replace_stars(p.drop_last()) + if p.last() == '*' {
            star_class()
        } else {
            seq![p.last()]
        }
    }
}

/// The expression that matches a whole name against wildcard pattern `p`.
pub open spec fn wildcard_regex(p: Seq<char>) -> Seq<char> {
    seq!['^'] + replace_stars(p) + seq!['$']
}

/// Where the segment of `s[..k]` after its last `\` starts.
pub open spec fn segment_start(s: Seq<char>, k: int) -> int
    decreases k,
{
    if k <= 0 || s[k - 1] == '\\' {
        k
    } else {
        segment_start(s, k - 1)
    }
}

/// The part of path `s` after its last `\`.
pub open spec fn last_segment(s: Seq<char>) -> Seq<char> {
    s.subrange(segment_start(s, s.len() as int), s.len() as int)
}

/// The names whose outcome is a match, in order; `None` as soon as an
/// outcome says that the expression does not compile.
pub open spec fn selected(names: Seq<Seq<char>>, outcomes: Seq<Option<bool>>) -> Option<
    Seq<Seq<char>>,
>
    decreases names.len(),
{
    if names.len() == 0 {
        Some(Seq::empty())
    } else {
        match (selected(names.drop_last(), outcomes.drop_last()), outcomes[names.len() - 1]) {
            (Some(done), Some(true)) => Some(done.push(names.last())),
            (Some(done), Some(false)) => Some(done),
            _ => None,
        }
    }
}

/// The last segments of a directory listing.
pub open spec fn entry_names(entries: Seq<Seq<char>>) -> Seq<Seq<char>> {
    entries.map_values(|e: Seq<char>| last_segment(e))
}

/// The outcome of expression `source` on each name.
pub open spec fn outcomes_of(source: Seq<char>, names: Seq<Seq<char>>) -> Seq<Option<bool>> {
    names.map_values(|n: Seq<char>| regex_outcome(source, n))
}

/// The names that expression `source` matches, in order; `None` when it does
/// not compile on one of them.
pub open spec fn matching_names(source: Seq<char>, names: Seq<Seq<char>>) -> Option<
    Seq<Seq<char>>,
> {
    selected(names, outcomes_of(source, names))
}

/// Once an outcome says that the expression does not compile, no longer
/// prefix gives a selection.
proof fn lemma_selection_fails_on(
    names: Seq<Seq<char>>,
    outcomes: Seq<Option<bool>>,
    i: int,
    j: int,
)
    requires
        names.len() == outcomes.len(),
        0 <= i <= j <= names.len(),
        selected(names.take(i), outcomes.take(i)) is None,
    ensures
        selected(names.take(j), outcomes.take(j)) is None,
    decreases j - i,
{
    if j > i {
        lemma_selection_fails_on(names, outcomes, i, j - 1);
        assert(names.take(j).drop_last() =~= names.take(j - 1));
        assert(outcomes.take(j).drop_last() =~= outcomes.take(j - 1));
    }
}

/// The names whose outcome is a match, in order; `None` as soon as an
/// outcome is `None`.
pub fn select_matches(names: &Vec<String>, outcomes: &Vec<Option<bool>>) -> (r: Option<Vec<String>>)
    requires
        names@.len() == outcomes@.len(),
    ensures
        opt_texts(r) == selected(texts(names@), outcomes@),
{
    let ghost ns = texts(names@);
    let ghost os = outcomes@;
    let mut res: Vec<String> = Vec::new();
    let mut i: usize = 0;
    while i < names.len()
        invariant
            ns == texts(names@),
            os == outcomes@,
            ns.len() == os.len(),
            i <= ns.len(),
            selected(ns.take(i as int), os.take(i as int)) == Some(texts(res@)),
        decreases ns.len() - i,
    {
        assert(ns.take(i + 1).drop_last() =~= ns.take(i as int));
        assert(os.take(i + 1).drop_last() =~= os.take(i as int));
        assert(ns.take(i + 1).last() == names@[i as int]@);
        assert(os.take(i + 1)[i as int] == outcomes@[i as int]);
        match outcomes[i] {
            Some(true) => {
                let name = names[i].clone();
                let ghost prev = res@;
                res.push(name);
                assert(texts(res@) =~= texts(prev).push(name@));
            },
            Some(false) => {},
            None => {
                proof {
                    lemma_selection_fails_on(ns, os, i + 1, ns.len() as int);
                    assert(ns.take(ns.len() as int) =~= ns);
                    assert(os.take(os.len() as int) =~= os);
                }
                return None;
            },
        }
        i += 1;
    }
    assert(ns.take(i as int) =~= ns);
    assert(os.take(i as int) =~= os);
    Some(res)
}

/// The character views of an optional sequence of strings.
pub open spec fn opt_texts(v: Option<Vec<String>>) -> Option<Seq<Seq<char>>> {
    match v {
        Some(v) => Some(texts(v@)),
        None => None,
    }
}

/// The anchored expression of wildcard pattern `pattern`.
pub fn wildcard_to_regex(pattern: &str) -> (r: String)
    ensures
        r@ == wildcard_regex(pattern@),
{
    let mut r = String::from_str("^");
    proof {
        reveal_strlit("^");
    }
    let n = pattern.unicode_len();
    let mut i: usize = 0;
    while i < n
        invariant
            n == pattern@.len(),
            i <= n,
            r@ == seq!['^'] + replace_stars(pattern@.take(i as int)),
        decreases n - i,
    {
        assert(pattern@.take(i + 1).drop_last() =~= pattern@.take(i as int));
        if pattern.get_char(i) == '*' {
            r.append("[\\w\\s\\-\\[\\]]*");
        } else {
            let one = pattern.substring_char(i, i + 1);
            assert(one@ =~= seq![pattern@[i as int]]);
            r.append(one);
        }
        i += 1;
        assert(r@ =~= seq!['^'] + replace_stars(pattern@.take(i as int)));
    }
    assert(pattern@.take(n as int) =~= pattern@);
    r.append("$");
    proof {
        reveal_strlit("$");
    }
    assert(r@ =~= wildcard_regex(pattern@));
    r
}

/// The part of `path` after its last `\`.
pub fn file_name_of(path: &str) -> (r: String)
    ensures
        r@ == last_segment(path@),
{
    let n = path.unicode_len();
    let mut k: usize = n;
    while k > 0 && path.get_char(k - 1) != '\\'
        invariant
            n == path@.len(),
            k <= n,
            segment_start(path@, k as int) == segment_start(path@, n as int),
        decreases k,
    {
        k -= 1;
    }
    String::from_str(path.substring_char(k, n))
}

impl Rule {
    /// The names of the entries of a directory listing that the rule's
    /// pattern matches whole, in listing order; `None` when the pattern does
    /// not make a valid expression.
    pub fn files_concerned(&self, entries: &Vec<String>) -> (r: Option<Vec<String>>)
        ensures
            opt_texts(r) == matching_names(
                wildcard_regex(self@.first_pattern),
                entry_names(texts(entries@)),
            ),
    {
        let source = wildcard_to_regex(self.get_first_pattern().as_str());
        let ghost ns = entry_names(texts(entries@));
        let mut names: Vec<String> = Vec::new();
        let mut outcomes: Vec<Option<bool>> = Vec::new();
        let mut i: usize = 0;
        while i < entries.len()
            invariant
                source@ == wildcard_regex(self@.first_pattern),
                ns == entry_names(texts(entries@)),
                i <= entries@.len(),
                texts(names@) == ns.take(i as int),
                outcomes@ == outcomes_of(source@, ns).take(i as int),
            decreases entries@.len() - i,
        {
            let name = file_name_of(entries[i].as_str());
            let outcome = regex_match(source.as_str(), name.as_str());
            let ghost prev = names@;
            names.push(name);
            outcomes.push(outcome);
            assert(texts(names@) =~= texts(prev).push(name@));
            assert(ns.take(i + 1) =~= ns.take(i as int).push(ns[i as int]));
            assert(outcomes@ =~= outcomes_of(source@, ns).take(i + 1));
            i += 1;
        }
        assert(texts(names@) =~= ns);
        assert(outcomes@ =~= outcomes_of(source@, ns));
        select_matches(&names, &outcomes)
    }
}

} // verus!
