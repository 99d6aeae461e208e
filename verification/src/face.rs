use crate::number::parse_u32;
use crate::number::uint_value;
use crate::text::chars_of;
use crate::text::run_len;
use crate::text::scan;
use crate::text::CharClass;
use crate::tokens::lemma_next_shortens;
use crate::tokens::Tokens;
use crate::tokens::TokensView;
use vstd::prelude::*;
use vstd::slice::slice_subrange;

verus! {

/// One corner of a polygon: indices into the position, normal and texture
/// coordinate buffers of its mesh. Indices count from 1, and 0 says that the
/// corner has no such datum.
#[derive(Debug, Clone, Copy, PartialEq, Eq, Structural)]
pub struct FaceElement {
    pub position_index: u32,
    pub normal_index: u32,
    pub uv_index: u32,
}

/// The `k`-th of the fields of `s` that `/` separates, counted from 0; the
/// empty text where `s` has no such field.
pub open spec fn slash_field(s: Seq<char>, k: nat) -> Seq<char>
    decreases k,
{
    let n = run_len(s, CharClass::Except('/')) as int;
    if k == 0 {
        s.take(n)
    } else if n >= s.len() {
        Seq::empty()
    } else {
        slash_field(s.skip(n + 1), (k - 1) as nat)
    }
}

/// The index that a field denotes: its value where it is an unsigned integer
/// numeral, and 0 otherwise.
pub open spec fn index_value(field: Seq<char>) -> u32 {
    match uint_value(field) {
        Some(v) => v,
        None => 0,
    }
}

/// The corner that `s` denotes: its first three fields are the position, the
/// texture coordinate and the normal index, in this order.
pub open spec fn corner(s: Seq<char>) -> FaceElement {
    FaceElement {
        position_index: index_value(slash_field(s, 0)),
        uv_index: index_value(slash_field(s, 1)),
        normal_index: index_value(slash_field(s, 2)),
    }
}

/// The corners that the words of a line denote, in order.
pub open spec fn corners(v: TokensView) -> Seq<FaceElement>
    decreases v.rest.len(),
{
    match v.next().0 {
        Some(w) => {
            proof {
                lemma_next_shortens(v);
            }
            seq![corner(w)] + corners(v.next().1)
        },
        None => Seq::empty(),
    }
}

/// Reads the field at the start of `s`. Hands back its index and, where a
/// `/` follows the field, the text behind that `/`.
fn take_index(s: &[char]) -> (r: (u32, Option<&[char]>))
    ensures
        r.0 == index_value(slash_field(s@, 0)),
        match r.1 {
            Some(rest) => run_len(s@, CharClass::Except('/')) < s@.len() && rest@ == s@.skip(
                run_len(s@, CharClass::Except('/')) as int + 1,
            ),
            None => run_len(s@, CharClass::Except('/')) >= s@.len(),
        },
{
    let n: usize = scan(s, CharClass::Except('/'));
    let field: &[char] = slice_subrange(s, 0, n);
    assert(field@ =~= s@.take(n as int));
    let value: u32 = match parse_u32(field) {
        Some(v) => v,
        None => 0,
    };
    if n < s.len() {
        let rest: &[char] = slice_subrange(s, n + 1, s.len());
        assert(rest@ =~= s@.skip(n + 1));
        (value, Some(rest))
    } else {
        (value, None)
    }
}

impl FaceElement {
    /// The corner with these indices.
    pub fn new(position_index: u32, normal_index: u32, uv_index: u32) -> (r: FaceElement)
        ensures
            r == (FaceElement { position_index, normal_index, uv_index }),
    {
        FaceElement { position_index, normal_index, uv_index }
    }

    /// The index into the position buffer.
    pub fn position_index(&self) -> (r: u32)
        ensures
            r == self.position_index,
    {
        self.position_index
    }

    /// The index into the normal buffer.
    pub fn normal_index(&self) -> (r: u32)
        ensures
            r == self.normal_index,
    {
        self.normal_index
    }

    /// The index into the texture coordinate buffer.
    pub fn uv_index(&self) -> (r: u32)
        ensures
            r == self.uv_index,
    {
        self.uv_index
    }

    /// Reads a corner written as `position/uv/normal`. A field that is
    /// missing, empty or no unsigned integer counts as 0, and fields behind
    /// the third are ignored.
    pub fn parse(element_string: &str) -> (r: FaceElement)
        ensures
            r == corner(element_string@),
    {
        let chars = chars_of(element_string);
        FaceElement::parse_chars(chars.as_slice())
    }

    /// Reads a corner from its characters.
    pub fn parse_chars(s: &[char]) -> (r: FaceElement)
        ensures
            r == corner(s@),
    {
        let (position_index, after_position) = take_index(s);
        let mut uv_index: u32 = 0;
        let mut normal_index: u32 = 0;
        proof {
            reveal_with_fuel(slash_field, 3);
            assert(uint_value(Seq::<char>::empty()) is None);
        }
        match after_position {
            Some(t) => {
                let (uv, after_uv) = take_index(t);
                uv_index = uv;
                match after_uv {
                    Some(u) => {
                        let (normal, _) = take_index(u);
                        normal_index = normal;
                    },
                    None => {},
                }
            },
            None => {},
        }
        FaceElement { position_index, normal_index, uv_index }
    }
}

/// A polygon: its corners in order.
#[derive(Debug, PartialEq, Eq)]
pub struct Face {
    elements: Vec<FaceElement>,
}

impl View for Face {
    type V = Seq<FaceElement>;

    closed spec fn view(&self) -> Seq<FaceElement> {
        self.elements@
    }
}

impl Face {
    /// The polygon with these corners.
    pub fn new(elements: Vec<FaceElement>) -> (r: Face)
        ensures
            r@ == elements@,
    {
        Face { elements }
    }

    /// The corners of the polygon.
    pub fn elements(&self) -> (r: &Vec<FaceElement>)
        ensures
            r@ == self@,
    {
        &self.elements
    }

    /// Reads the remaining words of a line as the corners of one polygon.
    pub fn parse(tokens: &mut Tokens) -> (r: Face)
        ensures
            r@ == corners(old(tokens)@),
            final(tokens)@.words() == Seq::<Seq<char>>::empty(),
    {
        let mut elements: Vec<FaceElement> = Vec::new();
        loop
            invariant
                elements@ + corners(tokens@) == corners(old(tokens)@),
            ensures
                elements@ == corners(old(tokens)@),
                tokens@.next().0 is None,
            decreases tokens@.rest.len(),
        {
            let ghost before = tokens@;
            let ghost done = elements@;
            proof {
                lemma_next_shortens(before);
            }
            match tokens.next() {
                Some(word) => {
                    elements.push(FaceElement::parse_chars(word));
                    assert(elements@ + corners(tokens@) =~= done + corners(before));
                },
                None => {
                    assert(elements@ + corners(before) =~= elements@);
                    assert(tokens@.next().0 is None) by {
                        lemma_next_none_stays(before);
                    }
                    break;
                },
            }
        }
        Face { elements }
    }
}

/// Once a cursor has no next word, it has none for good.
pub proof fn lemma_next_none_stays(v: TokensView)
    ensures
        v.next().0 is None ==> v.next().1.next().0 is None,
{
}

impl Clone for Face {
    fn clone(&self) -> (r: Face)
        ensures
            r@ == self@,
    {
        let mut elements: Vec<FaceElement> = Vec::new();
        let mut i: usize = 0;
        while i < self.elements.len()
            invariant
                i <= self.elements@.len(),
                elements@ == self.elements@.take(i as int),
            decreases self.elements@.len() - i,
        {
            elements.push(self.elements[i]);
            assert(elements@ =~= self.elements@.take(i + 1));
            i = i + 1;
        }
        assert(elements@ =~= self.elements@);
        Face { elements }
    }
}

} // verus!
