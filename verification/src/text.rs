//! Character-level text primitives: whitespace, substring search, lines and tokens.

use vstd::prelude::*;
use vstd::string::*;

verus! {

/// Whether `c` has the Unicode `White_Space` property.
pub open spec fn is_whitespace(c: char) -> bool {
    let n = c as u32;
    ||| 0x09 <= n <= 0x0D
    ||| n == 0x20
    ||| n == 0x85
    ||| n == 0xA0
    ||| n == 0x1680
    ||| 0x2000 <= n <= 0x200A
    ||| n == 0x2028
    ||| n == 0x2029
    ||| n == 0x202F
    ||| n == 0x205F
    ||| n == 0x3000
}

/// Decides [`is_whitespace`].
pub fn char_is_whitespace(c: char) -> (r: bool)
    ensures
        r == is_whitespace(c),
{
    let n: u32 = c as u32;
    (0x09 <= n && n <= 0x0D) || n == 0x20 || n == 0x85 || n == 0xA0 || n == 0x1680 || (0x2000 <= n
        && n <= 0x200A) || n == 0x2028 || n == 0x2029 || n == 0x202F || n == 0x205F || n == 0x3000
}

/// The characters of `s`, in order.
pub fn chars_of(s: &str) -> (v: Vec<char>)
    ensures
        v@ == s@,
{
    let mut v: Vec<char> = Vec::new();
    for c in it: s.chars()
        invariant
            v@ == it.seq().take(it.index()),
    {
        v.push(c);
    }
    v
}

/// Whether two texts hold the same characters.
pub fn same_text(a: &str, b: &str) -> (r: bool)
    ensures
        r == (a@ == b@),
{
    String::from_str(a) == String::from_str(b)
}

/// Whether `needle` stands in `hay` at index `i`.
pub open spec fn occurs_at(hay: Seq<char>, needle: Seq<char>, i: int) -> bool {
    &&& 0 <= i
    &&& i + needle.len() <= hay.len()
    &&& hay.subrange(i, i + needle.len()) == needle
}

/// Whether `needle` is a contiguous part of `hay`. The empty sequence is part of every sequence.
pub open spec fn has_substring(hay: Seq<char>, needle: Seq<char>) -> bool {
    exists|i: int| occurs_at(hay, needle, i)
}

/// Decides [`occurs_at`]. At an index at which `needle` does not fit, it does not occur.
pub fn matches_at(hay: &[char], needle: &[char], i: usize) -> (r: bool)
    ensures
        r == occurs_at(hay@, needle@, i as int),
{
    if needle.len() > hay.len() || i > hay.len() - needle.len() {
        return false;
    }
    let mut j: usize = 0;
    while j < needle.len()
        invariant
            j <= needle.len(),
            i + needle.len() <= hay.len(),
            forall|k: int| 0 <= k < j ==> hay@[i + k] == needle@[k],
        decreases needle.len() - j,
    {
        if hay[i + j] != needle[j] {
            assert(hay@.subrange(i as int, i + needle.len())[j as int] == hay@[i + j]);
            return false;
        }
        j += 1;
    }
    assert(hay@.subrange(i as int, i + needle.len()) =~= needle@);
    true
}

/// Decides [`has_substring`], trying each index in turn.
pub fn contains(hay: &[char], needle: &[char]) -> (r: bool)
    ensures
        r == has_substring(hay@, needle@),
{
    if needle.len() > hay.len() {
        return false;
    }
    let last: usize = hay.len() - needle.len();
    let mut i: usize = 0;
    loop
        invariant
            i <= last,
            last == hay.len() - needle.len(),
            forall|k: int| 0 <= k < i ==> !occurs_at(hay@, needle@, k),
        decreases last - i,
    {
        if matches_at(hay, needle, i) {
            return true;
        }
        if i == last {
            return false;
        }
        i += 1;
    }
}

/// Decides [`has_substring`] for two texts.
pub fn text_contains(hay: &str, needle: &str) -> (r: bool)
    ensures
        r == has_substring(hay@, needle@),
{
    let hay_chars = chars_of(hay);
    let needle_chars = chars_of(needle);
    contains(hay_chars.as_slice(), needle_chars.as_slice())
}

/// A class of characters, by which a run of text is measured.
#[derive(Clone, Copy, Debug)]
pub enum CharClass {
    /// White space.
    Blank,
    /// Anything but white space.
    Solid,
    /// Anything but a line feed.
    InLine,
}

impl CharClass {
    /// Whether `c` belongs to the class.
    pub open spec fn holds(self, c: char) -> bool {
        match self {
            CharClass::Blank => is_whitespace(c),
            CharClass::Solid => !is_whitespace(c),
            CharClass::InLine => c != '\n',
        }
    }

    /// Decides [`CharClass::holds`].
    pub fn admits(self, c: char) -> (r: bool)
        ensures
            r == self.holds(c),
    {
        match self {
            CharClass::Blank => char_is_whitespace(c),
            CharClass::Solid => !char_is_whitespace(c),
            CharClass::InLine => c != '\n',
        }
    }
}

/// The length of the longest prefix of `s` whose characters all belong to `class`.
pub open spec fn run_length(s: Seq<char>, class: CharClass) -> int
    decreases s.len(),
{
    if s.len() > 0 && class.holds(s[0]) {
        1 + run_length(s.drop_first(), class)
    } else {
        0
    }
}

/// A run is as long as the prefix that lies within the class and cannot be extended.
pub proof fn lemma_run_length(s: Seq<char>, class: CharClass, n: int)
    requires
        0 <= n <= s.len(),
        forall|j: int| 0 <= j < n ==> class.holds(s[j]),
        n < s.len() ==> !class.holds(s[n]),
    ensures
        run_length(s, class) == n,
    decreases n,
{
    if n > 0 {
        let rest = s.drop_first();
        assert forall|j: int| 0 <= j < n - 1 implies class.holds(rest[j]) by {
            assert(rest[j] == s[j + 1]);
        }
        if n - 1 < rest.len() {
            assert(rest[n - 1] == s[n]);
        }
        lemma_run_length(rest, class, n - 1);
    }
}

/// A run stays within the sequence, covers only characters of the class, and stops at the
/// first character outside it.
pub proof fn lemma_run_length_bounds(s: Seq<char>, class: CharClass)
    ensures
        0 <= run_length(s, class) <= s.len(),
        forall|j: int| 0 <= j < run_length(s, class) ==> class.holds(s[j]),
        run_length(s, class) < s.len() ==> !class.holds(s[run_length(s, class)]),
    decreases s.len(),
{
    if s.len() > 0 && class.holds(s[0]) {
        let rest = s.drop_first();
        lemma_run_length_bounds(rest, class);
        assert forall|j: int| 0 <= j < run_length(s, class) implies class.holds(s[j]) by {
            if j > 0 {
                assert(s[j] == rest[j - 1]);
            }
        }
        if run_length(s, class) < s.len() {
            assert(s[run_length(s, class)] == rest[run_length(rest, class)]);
        }
    }
}

/// The index at which the run of `class` that starts at `from` ends.
pub fn run_end(text: &[char], from: usize, class: CharClass) -> (end: usize)
    requires
        from <= text.len(),
    ensures
        from <= end <= text.len(),
        end == from + run_length(text@.skip(from as int), class),
{
    let mut end: usize = from;
    while end < text.len() && class.admits(text[end])
        invariant
            from <= end <= text.len(),
            forall|j: int| from <= j < end ==> class.holds(text@[j]),
        decreases text.len() - end,
    {
        end += 1;
    }
    proof {
        let rest = text@.skip(from as int);
        assert forall|j: int| 0 <= j < end - from implies class.holds(rest[j]) by {
            assert(rest[j] == text@[from + j]);
        }
        if end - from < rest.len() {
            assert(rest[end - from] == text@[end as int]);
        }
        lemma_run_length(rest, class, end - from);
    }
    end
}

/// `line` without the carriage return at its end, if it has one.
pub open spec fn strip_cr(line: Seq<char>) -> Seq<char> {
    if line.len() > 0 && line.last() == '\r' {
        line.drop_last()
    } else {
        line
    }
}

/// The lines of `s`. A line ends at a line feed, or at the end of the text; the line feed,
/// and a carriage return directly before it, are not part of the line. After the last line
/// feed no empty line follows, and a last line that no line feed ends keeps its carriage
/// return.
pub open spec fn lines_of(s: Seq<char>) -> Seq<Seq<char>>
    decreases s.len(),
{
    let n = run_length(s, CharClass::InLine);
    if s.len() == 0 {
        Seq::empty()
    } else if 0 <= n < s.len() {
        seq![strip_cr(s.take(n))] + lines_of(s.skip(n + 1))
    } else {
        seq![s]
    }
}

/// The first run of characters of `line` that are no white space, if there is one.
pub open spec fn first_token(line: Seq<char>) -> Option<Seq<char>> {
    let start = run_length(line, CharClass::Blank);
    if 0 <= start < line.len() {
        Some(line.subrange(start, start + run_length(line.skip(start), CharClass::Solid)))
    } else {
        None
    }
}

/// Where the line that starts at `from` ends, and where the text after it starts.
pub fn next_line(text: &[char], from: usize) -> (r: (usize, usize))
    requires
        from < text.len(),
    ensures
        from <= r.0 <= r.1 <= text.len(),
        from < r.1,
        lines_of(text@.skip(from as int)) == seq![text@.subrange(from as int, r.0 as int)]
            + lines_of(text@.skip(r.1 as int)),
{
    let feed = run_end(text, from, CharClass::InLine);
    let ghost rest = text@.skip(from as int);
    if feed == text.len() {
        proof {
            assert(text@.skip(feed as int).len() == 0);
            assert(rest =~= text@.subrange(from as int, feed as int));
            assert(lines_of(rest) =~= seq![rest] + Seq::<Seq<char>>::empty());
        }
        (feed, feed)
    } else {
        let end = if feed > from && text[feed - 1] == '\r' {
            feed - 1
        } else {
            feed
        };
        proof {
            let n = feed - from;
            assert(rest.take(n) =~= text@.subrange(from as int, feed as int));
            assert(strip_cr(rest.take(n)) =~= text@.subrange(from as int, end as int));
            assert(rest.skip(n + 1) =~= text@.skip(feed + 1));
        }
        (end, feed + 1)
    }
}

/// The bounds of the first token of `line`.
pub fn first_token_bounds(line: &[char]) -> (r: Option<(usize, usize)>)
    ensures
        match r {
            Some((start, end)) => start < end <= line.len() && first_token(line@) == Some(
                line@.subrange(start as int, end as int),
            ),
            None => first_token(line@) is None,
        },
{
    let start = run_end(line, 0, CharClass::Blank);
    assert(line@.skip(0) =~= line@);
    if start < line.len() {
        let end = run_end(line, start, CharClass::Solid);
        proof {
            lemma_run_length_bounds(line@.skip(start as int), CharClass::Solid);
            lemma_run_length_bounds(line@, CharClass::Blank);
            assert(line@.skip(start as int)[0] == line@[start as int]);
        }
        Some((start, end))
    } else {
        None
    }
}

} // verus!
