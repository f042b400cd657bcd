//! Character-level helpers on configuration lines: comment removal, trailing
//! whitespace trimming and splitting on spaces.
use vstd::prelude::*;

verus! {

/// The character views of a sequence of strings.
pub open spec fn texts(v: Seq<String>) -> Seq<Seq<char>> {
    v.map_values(|s: String| s@)
}

/// The Unicode `White_Space` characters.
pub open spec fn is_space_char(c: char) -> bool {
    c == '\t' || c == '\n' || c == '\u{0B}' || c == '\u{0C}' || c == '\r' || c == ' ' || c
        == '\u{85}' || c == '\u{A0}' || c == '\u{1680}' || c == '\u{2000}' || c == '\u{2001}' || c
        == '\u{2002}' || c == '\u{2003}' || c == '\u{2004}' || c == '\u{2005}' || c == '\u{2006}'
        || c == '\u{2007}' || c == '\u{2008}' || c == '\u{2009}' || c == '\u{200A}' || c
        == '\u{2028}' || c == '\u{2029}' || c == '\u{202F}' || c == '\u{205F}' || c == '\u{3000}'
}

/// Position of the first `//` at or after `i`, or `s.len()` when there is none.
pub open spec fn comment_from(s: Seq<char>, i: int) -> int
    decreases s.len() - i,
{
    if i < 0 || i + 1 >= s.len() {
        s.len() as int
    } else if s[i] == '/' && s[i + 1] == '/' {
        i
    } else {
        comment_from(s, i + 1)
    }
}

/// Position where the comment of a line starts (its length when it has none).
pub open spec fn comment_start(s: Seq<char>) -> int {
    comment_from(s, 0)
}

/// The text before the first `//`.
pub open spec fn strip_comment(s: Seq<char>) -> Seq<char> {
    s.take(comment_start(s))
}

/// `s` without its trailing whitespace.
pub open spec fn trim_end(s: Seq<char>) -> Seq<char>
    decreases s.len(),
{
    if s.len() > 0 && is_space_char(s.last()) {
        trim_end(s.drop_last())
    } else {
        s
    }
}

/// What is left of a configuration line once its comment and trailing whitespace are gone.
pub open spec fn line_value(s: Seq<char>) -> Seq<char> {
    trim_end(strip_comment(s))
}

/// The non-empty fragments of `s[start..]` split on `' '`, where `s[start..i]`
/// holds no space and is the fragment being read.
pub open spec fn words_from(s: Seq<char>, start: int, i: int) -> Seq<Seq<char>>
    decreases s.len() - i,
{
    if i >= s.len() {
        if start < i {
            seq![s.subrange(start, s.len() as int)]
        } else {
            seq![]
        }
    } else if s[i] == ' ' {
        let head: Seq<Seq<char>> = if start < i {
            seq![s.subrange(start, i)]
        } else {
            seq![]
        };
        head + words_from(s, i + 1, i + 1)
    } else {
        words_from(s, start, i + 1)
    }
}

/// The non-empty fragments of `s` split on single spaces, in order.
pub open spec fn words(s: Seq<char>) -> Seq<Seq<char>> {
    words_from(s, 0, 0)
}

/// Whether `c` is a whitespace character, as `char::is_whitespace` decides it.
pub fn is_space(c: char) -> (r: bool)
    ensures
        r == is_space_char(c),
{
    c == '\t' || c == '\n' || c == '\u{0B}' || c == '\u{0C}' || c == '\r' || c == ' ' || c
        == '\u{85}' || c == '\u{A0}' || c == '\u{1680}' || c == '\u{2000}' || c == '\u{2001}' || c
        == '\u{2002}' || c == '\u{2003}' || c == '\u{2004}' || c == '\u{2005}' || c == '\u{2006}'
        || c == '\u{2007}' || c == '\u{2008}' || c == '\u{2009}' || c == '\u{200A}' || c
        == '\u{2028}' || c == '\u{2029}' || c == '\u{202F}' || c == '\u{205F}' || c == '\u{3000}'
}

/// The characters of `s`, in order.
pub fn chars_of(s: &str) -> (r: Vec<char>)
    ensures
        r@ == s@,
{
    let n = s.unicode_len();
    let mut r: Vec<char> = Vec::new();
    let mut i: usize = 0;
    while i < n
        invariant
            n == s@.len(),
            i <= n,
            r@ == s@.take(i as int),
        decreases n - i,
    {
        r.push(s.get_char(i));
        i += 1;
        assert(r@ =~= s@.take(i as int));
    }
    assert(r@ =~= s@);
    r
}

/// Index of the first `//` in `s`, or its length.
pub fn find_comment(s: &Vec<char>) -> (r: usize)
    ensures
        r as int == comment_start(s@),
        r <= s@.len(),
{
    let n = s.len();
    let mut i: usize = 0;
    while n > 0 && i < n - 1
        invariant
            n == s@.len(),
            i <= n,
            comment_from(s@, i as int) == comment_start(s@),
        decreases n - i,
    {
        if s[i] == '/' && s[i + 1] == '/' {
            return i;
        }
        i += 1;
    }
    n
}

/// Length of `s[..end]` once its trailing whitespace is gone.
pub fn trimmed_len(s: &Vec<char>, end: usize) -> (r: usize)
    requires
        end <= s@.len(),
    ensures
        r <= end,
        s@.take(r as int) == trim_end(s@.take(end as int)),
{
    let mut k: usize = end;
    while k > 0 && is_space(s[k - 1])
        invariant
            k <= end,
            end <= s@.len(),
            trim_end(s@.take(k as int)) == trim_end(s@.take(end as int)),
        decreases k,
    {
        assert(s@.take(k as int).drop_last() =~= s@.take(k - 1));
        k -= 1;
    }
    k
}

/// Length of what is left of line `s` once its comment and trailing whitespace are gone.
pub fn value_len(s: &Vec<char>) -> (r: usize)
    ensures
        s@.take(r as int) == line_value(s@),
        r <= s@.len(),
{
    let c = find_comment(s);
    trimmed_len(s, c)
}

/// The text of `line` before its first `//`.
pub fn remove_comment_text(line: &str) -> (r: String)
    ensures
        r@ == strip_comment(line@),
{
    let cs = chars_of(line);
    let c = find_comment(&cs);
    String::from_str(line.substring_char(0, c))
}

/// The non-empty fragments of `line[..end]` split on single spaces.
pub fn split_words(line: &str, end: usize) -> (r: Vec<String>)
    requires
        end <= line@.len(),
    ensures
        texts(r@) == words(line@.take(end as int)),
{
    let ghost s = line@.take(end as int);
    let mut r: Vec<String> = Vec::new();
    let mut start: usize = 0;
    let mut i: usize = 0;
    while i < end
        invariant
            end <= line@.len(),
            s == line@.take(end as int),
            start <= i <= end,
            texts(r@) + words_from(s, start as int, i as int) == words(s),
        decreases end - i,
    {
        if line.get_char(i) == ' ' {
            if start < i {
                let w = String::from_str(line.substring_char(start, i));
                assert(w@ == s.subrange(start as int, i as int));
                r.push(w);
            }
            assert(texts(r@) + words_from(s, (i + 1) as int, (i + 1) as int) =~= words(s));
            start = i + 1;
        }
        i += 1;
    }
    assert(i == end);
    if start < end {
        let w = String::from_str(line.substring_char(start, end));
        assert(words_from(s, start as int, end as int) == seq![s.subrange(start as int, end as int)]);
        assert(w@ =~= s.subrange(start as int, end as int));
        let ghost prev = texts(r@);
        r.push(w);
        assert(texts(r@) =~= prev + seq![s.subrange(start as int, end as int)]);
    } else {
        assert(words_from(s, start as int, end as int) == Seq::<Seq<char>>::empty());
    }
    assert(texts(r@) =~= words(s));
    r
}

/// A text with its trailing whitespace gone ends, when it is not empty, in a
/// character that is not whitespace.
pub proof fn lemma_trim_end_last(s: Seq<char>)
    ensures
        trim_end(s).len() <= s.len(),
        trim_end(s).len() > 0 ==> !is_space_char(trim_end(s).last()),
    decreases s.len(),
{
    if s.len() > 0 && is_space_char(s.last()) {
        lemma_trim_end_last(s.drop_last());
    }
}

/// When `s` ends in a character other than a space, its last fragment ends in
/// that character.
pub proof fn lemma_words_last(s: Seq<char>, start: int, i: int)
    requires
        0 <= start <= i <= s.len(),
        i < s.len() || start < i,
        s.len() > 0,
        s.last() != ' ',
    ensures
        words_from(s, start, i).len() > 0,
        words_from(s, start, i).last().len() > 0,
        words_from(s, start, i).last().last() == s.last(),
    decreases s.len() - i,
{
    if i >= s.len() {
    } else if s[i] == ' ' {
        lemma_words_last(s, i + 1, i + 1);
        let head: Seq<Seq<char>> = if start < i {
            seq![s.subrange(start, i)]
        } else {
            seq![]
        };
        assert((head + words_from(s, i + 1, i + 1)).last() == words_from(s, i + 1, i + 1).last());
    } else {
        lemma_words_last(s, start, i + 1);
    }
}

/// The position of the first `//` is the same in `s` and in `s` followed by
/// `//` and any text, unless `s` has none and ends in `/`.
pub proof fn lemma_comment_from_append(s: Seq<char>, t: Seq<char>, i: int)
    requires
        0 <= i <= s.len(),
        comment_from(s, i) < s.len() || s.len() == 0 || s.last() != '/',
    ensures
        comment_from(s + seq!['/', '/'] + t, i) == comment_from(s, i),
        i <= comment_from(s, i) <= s.len(),
    decreases s.len() - i,
{
    let u = s + seq!['/', '/'] + t;
    if i == s.len() {
        assert(u[i] == '/' && u[i + 1] == '/');
    } else if i + 1 == s.len() {
        assert(u[i] == s.last());
        lemma_comment_from_append(s, t, i + 1);
    } else {
        assert(u[i] == s[i] && u[i + 1] == s[i + 1]);
        if !(s[i] == '/' && s[i + 1] == '/') {
            lemma_comment_from_append(s, t, i + 1);
        }
    }
}

} // verus!
