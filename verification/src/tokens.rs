use crate::text::lemma_run_len_bounds;
use crate::text::run_len;
use crate::text::scan;
use crate::text::CharClass;
use vstd::prelude::*;
use vstd::slice::slice_subrange;

verus! {

/// A cursor over the words of one line.
pub struct Tokens<'a> {
    rest: &'a [char],
    finished: bool,
}

/// The state of a cursor: the text it has not read yet, and whether it has
/// read the line to its end.
pub struct TokensView {
    pub rest: Seq<char>,
    pub finished: bool,
}

impl TokensView {
    /// A cursor at the start of `line`.
    pub open spec fn start(line: Seq<char>) -> TokensView {
        TokensView { rest: line, finished: false }
    }

    /// A cursor that has read its line to the end.
    pub open spec fn done() -> TokensView {
        TokensView { rest: Seq::empty(), finished: true }
    }

    /// The next word, if there is one, and the cursor behind it. A word is a
    /// longest run of characters that are not whitespace. The cursor then
    /// stands behind the one whitespace character that ends the word, or is
    /// at the end where no whitespace follows.
    pub open spec fn next(self) -> (Option<Seq<char>>, TokensView) {
        if self.finished {
            (None, self)
        } else {
            let s = self.rest.skip(run_len(self.rest, CharClass::Space) as int);
            let n = run_len(s, CharClass::Word) as int;
            if n == 0 {
                (None, TokensView::done())
            } else if n >= s.len() {
                (Some(s), TokensView::done())
            } else {
                (Some(s.take(n)), TokensView { rest: s.skip(n + 1), finished: false })
            }
        }
    }

    /// The unread text as it stands; nothing once the line was read to its
    /// end.
    pub open spec fn remainder(self) -> Option<Seq<char>> {
        if self.finished {
            None
        } else {
            Some(self.rest)
        }
    }

    /// All the words that are still to come, in order.
    pub open spec fn words(self) -> Seq<Seq<char>>
        decreases self.rest.len(),
    {
        match self.next().0 {
            Some(w) => {
                proof {
                    lemma_next_shortens(self);
                }
                seq![w] + self.next().1.words()
            },
            None => Seq::empty(),
        }
    }
}

/// Reading a word leaves less text unread.
pub proof fn lemma_next_shortens(v: TokensView)
    ensures
        v.next().0 is Some ==> v.next().1.rest.len() < v.rest.len(),
{
    if !v.finished {
        lemma_run_len_bounds(v.rest, CharClass::Space);
        let s = v.rest.skip(run_len(v.rest, CharClass::Space) as int);
        lemma_run_len_bounds(s, CharClass::Word);
    }
}

/// The directive keyword of a line: its first word, or nothing where the
/// line is blank.
pub open spec fn keyword(line: Seq<char>) -> Seq<char> {
    match TokensView::start(line).next().0 {
        Some(w) => w,
        None => Seq::empty(),
    }
}

/// The cursor behind the directive keyword of a line.
pub open spec fn arguments(line: Seq<char>) -> TokensView {
    TokensView::start(line).next().1
}

/// The characters of an optional slice.
pub open spec fn opt_chars(t: Option<&[char]>) -> Option<Seq<char>> {
    match t {
        Some(s) => Some(s@),
        None => None,
    }
}

impl<'a> View for Tokens<'a> {
    type V = TokensView;

    closed spec fn view(&self) -> TokensView {
        TokensView {
            rest: if self.finished {
                Seq::empty()
            } else {
                self.rest@
            },
            finished: self.finished,
        }
    }
}

impl<'a> Tokens<'a> {
    /// A cursor at the start of `line`.
    pub fn new(line: &'a [char]) -> (r: Tokens<'a>)
        ensures
            r@ == TokensView::start(line@),
    {
        Tokens { rest: line, finished: false }
    }

    /// Splits a line into its directive keyword and the cursor behind it.
    pub fn directive(line: &'a [char]) -> (r: (&'a [char], Tokens<'a>))
        ensures
            r.0@ == keyword(line@),
            r.1@ == arguments(line@),
    {
        let mut tokens = Tokens::new(line);
        let word: &'a [char] = match tokens.next() {
            Some(w) => w,
            None => slice_subrange(line, 0, 0),
        };
        assert(word@ =~= keyword(line@));
        (word, tokens)
    }

    /// Reads the next word.
    pub fn next(&mut self) -> (r: Option<&'a [char]>)
        ensures
            opt_chars(r) == old(self)@.next().0,
            final(self)@ == old(self)@.next().1,
    {
        if self.finished {
            return None;
        }
        let spaces: usize = scan(self.rest, CharClass::Space);
        let s: &'a [char] = slice_subrange(self.rest, spaces, self.rest.len());
        assert(s@ =~= self.rest@.skip(spaces as int));
        let n: usize = scan(s, CharClass::Word);
        if n == 0 {
            self.finished = true;
            None
        } else if n >= s.len() {
            self.finished = true;
            assert(s@ =~= s@.take(n as int));
            Some(s)
        } else {
            let word: &'a [char] = slice_subrange(s, 0, n);
            self.rest = slice_subrange(s, n + 1, s.len());
            assert(word@ =~= s@.take(n as int));
            assert(self.rest@ =~= s@.skip(n + 1));
            Some(word)
        }
    }

    /// The unread text as it stands.
    pub fn remainder(&self) -> (r: Option<&'a [char]>)
        ensures
            opt_chars(r) == self@.remainder(),
    {
        if self.finished {
            None
        } else {
            Some(self.rest)
        }
    }
}

/// A word is not empty and holds no whitespace.
pub proof fn lemma_word_shape(v: TokensView)
    ensures
        v.next().0 matches Some(w) ==> w.len() > 0 && forall|i: int|
            0 <= i < w.len() ==> !crate::text::is_space(#[trigger] w[i]),
{
    if !v.finished {
        let s = v.rest.skip(run_len(v.rest, CharClass::Space) as int);
        lemma_run_len_bounds(s, CharClass::Word);
    }
}

} // verus!
