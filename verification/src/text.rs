use crate::model::views;
use vstd::prelude::*;
use vstd::slice::slice_subrange;
use vstd::slice::slice_to_vec;

verus! {

/// The sets of characters that the scanner tells apart.
#[derive(Clone, Copy, Debug)]
pub enum CharClass {
    /// ASCII whitespace: space, tab, line feed, form feed, carriage return.
    Space,
    /// Everything that is not ASCII whitespace.
    Word,
    /// The decimal digits `0` to `9`.
    Digit,
    /// Every character but the given one.
    Except(char),
}

/// ASCII whitespace: space, tab, line feed, form feed and carriage return.
pub open spec fn is_space(c: char) -> bool {
    c == ' ' || c == '\t' || c == '\n' || c == '\x0C' || c == '\r'
}

/// The decimal digits.
pub open spec fn is_digit(c: char) -> bool {
    '0' as u32 <= c as u32 && c as u32 <= '9' as u32
}

impl CharClass {
    /// Whether `c` belongs to the class.
    pub open spec fn has(self, c: char) -> bool {
        match self {
            CharClass::Space => is_space(c),
            CharClass::Word => !is_space(c),
            CharClass::Digit => is_digit(c),
            CharClass::Except(x) => c != x,
        }
    }

    /// Tests membership of `c` in the class.
    pub fn contains(&self, c: char) -> (r: bool)
        ensures
            r == self.has(c),
    {
        match self {
            CharClass::Space => c == ' ' || c == '\t' || c == '\n' || c == '\x0C' || c == '\r',
            CharClass::Word => !(c == ' ' || c == '\t' || c == '\n' || c == '\x0C' || c == '\r'),
            CharClass::Digit => '0' as u32 <= c as u32 && c as u32 <= '9' as u32,
            CharClass::Except(x) => c != *x,
        }
    }
}

/// The length of the longest prefix of `s` whose characters all belong to
/// `class`.
pub open spec fn run_len(s: Seq<char>, class: CharClass) -> nat
    decreases s.len(),
{
    if s.len() > 0 && class.has(s[0]) {
        1 + run_len(s.skip(1), class)
    } else {
        0
    }
}

/// A prefix of `n` characters of the class that either exhausts `s` or is
/// followed by a character outside the class is the longest one.
pub proof fn lemma_run_len(s: Seq<char>, class: CharClass, n: int)
    requires
        0 <= n <= s.len(),
        forall|j: int| 0 <= j < n ==> class.has(#[trigger] s[j]),
        n == s.len() || !class.has(s[n]),
    ensures
        run_len(s, class) == n,
    decreases n,
{
    if n > 0 {
        let t = s.skip(1);
        assert forall|j: int| 0 <= j < n - 1 implies class.has(#[trigger] t[j]) by {
            assert(t[j] == s[j + 1]);
        }
        lemma_run_len(t, class, n - 1);
    }
}

/// The run is a prefix of the class, and it cannot be extended.
pub proof fn lemma_run_len_bounds(s: Seq<char>, class: CharClass)
    ensures
        run_len(s, class) <= s.len(),
        forall|j: int| 0 <= j < run_len(s, class) ==> class.has(#[trigger] s[j]),
        run_len(s, class) < s.len() ==> !class.has(s[run_len(s, class) as int]),
    decreases s.len(),
{
    if s.len() > 0 && class.has(s[0]) {
        let t = s.skip(1);
        lemma_run_len_bounds(t, class);
        assert forall|j: int| 0 <= j < run_len(s, class) implies class.has(#[trigger] s[j]) by {
            if j > 0 {
                assert(s[j] == t[j - 1]);
            }
        }
        if run_len(s, class) < s.len() {
            assert(s[run_len(s, class) as int] == t[run_len(t, class) as int]);
        }
    }
}

/// Counts the characters of the class at the start of `s`.
pub fn scan(s: &[char], class: CharClass) -> (n: usize)
    ensures
        n == run_len(s@, class),
        n <= s@.len(),
{
    let mut i: usize = 0;
    while i < s.len() && class.contains(s[i])
        invariant
            i <= s@.len(),
            forall|j: int| 0 <= j < i ==> class.has(#[trigger] s@[j]),
        decreases s@.len() - i,
    {
        i = i + 1;
    }
    proof {
        lemma_run_len(s@, class, i as int);
    }
    i
}

/// The characters of `s`, in order.
pub fn chars_of(s: &str) -> (r: Vec<char>)
    ensures
        r@ == s@,
{
    let mut out: Vec<char> = Vec::new();
    for c in it: s.chars()
        invariant
            it.seq() == s@,
            out@ == it.seq().take(it.index() as int),
    {
        out.push(c);
    }
    out
}

/// Collects characters into a `String` with `String::from_iter`; the
/// contract claims that the string holds exactly those characters, in order.
#[verifier::external_body]
pub(crate) fn string_of(chars: &[char]) -> (r: String)
    ensures
        r@ == chars@,
{
    String::from_iter(chars.iter())
}

/// A line without the carriage return that stood before its line feed.
pub open spec fn without_cr(line: Seq<char>) -> Seq<char> {
    if line.len() > 0 && line.last() == '\r' {
        line.drop_last()
    } else {
        line
    }
}

/// The lines of a text. A line ends at a line feed, or at a carriage return
/// directly followed by one; neither belongs to the line. The last line
/// needs no ending, and a text that ends in a line ending has no empty line
/// after it.
pub open spec fn lines(text: Seq<char>) -> Seq<Seq<char>>
    decreases text.len(),
{
    if text.len() == 0 {
        Seq::empty()
    } else {
        let n = run_len(text, CharClass::Except('\n')) as int;
        if n >= text.len() {
            seq![text]
        } else {
            seq![without_cr(text.take(n))] + lines(text.skip(n + 1))
        }
    }
}

/// Splits a text into its lines.
pub fn split_lines(text: &[char]) -> (out: Vec<Vec<char>>)
    ensures
        views(out@) == lines(text@),
{
    let mut out: Vec<Vec<char>> = Vec::new();
    let mut rest: &[char] = text;
    assert(views(out@) =~= Seq::<Seq<char>>::empty());
    while rest.len() > 0
        invariant
            views(out@) + lines(rest@) == lines(text@),
        decreases rest@.len(),
    {
        let ghost before = views(out@);
        let ghost whole = rest@;
        let n: usize = scan(rest, CharClass::Except('\n'));
        if n >= rest.len() {
            out.push(slice_to_vec(rest));
            rest = slice_subrange(rest, n, n);
            assert(views(out@) =~= before + seq![whole]);
            assert(lines(rest@) =~= Seq::<Seq<char>>::empty());
        } else {
            let cut: usize = if n > 0 && rest[n - 1] == '\r' {
                n - 1
            } else {
                n
            };
            let line: &[char] = slice_subrange(rest, 0, cut);
            assert(line@ =~= without_cr(whole.take(n as int)));
            out.push(slice_to_vec(line));
            rest = slice_subrange(rest, n + 1, rest.len());
            assert(rest@ =~= whole.skip(n + 1));
            assert(views(out@) =~= before + seq![line@]);
        }
        assert(views(out@) + lines(rest@) =~= before + lines(whole));
    }
    assert(views(out@) + lines(rest@) =~= views(out@));
    out
}

/// Whether `s` spells exactly `word`.
pub fn is_word(s: &[char], word: &str) -> (r: bool)
    ensures
        r == (s@ == word@),
{
    let mut i: usize = 0;
    let mut same: bool = true;
    for c in it: word.chars()
        invariant
            it.seq() == word@,
            i <= s@.len(),
            same ==> i == it.index() && s@.take(i as int) == word@.take(i as int),
            !same ==> s@ != word@,
    {
        if same && i < s.len() && s[i] == c {
            assert(s@.take(i + 1) =~= s@.take(i as int).push(s@[i as int]));
            assert(word@.take(i + 1) =~= word@.take(i as int).push(word@[i as int]));
            i = i + 1;
        } else {
            if same {
                if i < s.len() {
                    assert(s@[i as int] != word@[i as int]);
                } else {
                    assert(s@.len() < word@.len());
                }
            }
            same = false;
        }
    }
    if same && i == s.len() {
        assert(s@ =~= s@.take(i as int));
        assert(word@ =~= word@.take(i as int));
        true
    } else {
        false
    }
}

} // verus!
