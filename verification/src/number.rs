use crate::text::is_digit;
use crate::text::lemma_run_len_bounds;
use crate::text::run_len;
use crate::text::scan;
use crate::text::string_of;
use crate::text::CharClass;
use vstd::prelude::*;
use vstd::slice::slice_subrange;

verus! {

/// The numeral without its leading `+` or `-`, if it has one.
pub open spec fn unsigned_part(s: Seq<char>) -> Seq<char> {
    if s.len() > 0 && (s[0] == '+' || s[0] == '-') {
        s.skip(1)
    } else {
        s
    }
}

/// The number that a decimal digit stands for.
pub open spec fn digit_value(c: char) -> nat {
    (c as u32 - '0' as u32) as nat
}

/// The number that a sequence of decimal digits denotes; the empty sequence
/// denotes 0.
pub open spec fn digits_value(s: Seq<char>) -> nat
    decreases s.len(),
{
    if s.len() == 0 {
        0
    } else {
        10 * digits_value(s.drop_last()) + digit_value(s.last())
    }
}

/// Whether `s` consists of decimal digits only.
pub open spec fn all_digits(s: Seq<char>) -> bool {
    run_len(s, CharClass::Digit) == s.len()
}

/// The value of an unsigned integer numeral: an optional `+`, then one or
/// more decimal digits, denoting a number that fits in 32 bits. Everything
/// else has no value.
pub open spec fn uint_value(s: Seq<char>) -> Option<u32> {
    let d = if s.len() > 0 && s[0] == '+' {
        s.skip(1)
    } else {
        s
    };
    if d.len() >= 1 && all_digits(d) && digits_value(d) <= u32::MAX {
        Some(digits_value(d) as u32)
    } else {
        None
    }
}

/// A numeral denotes at least what any of its prefixes denotes.
pub proof fn lemma_digits_value_prefix(s: Seq<char>, k: int)
    requires
        0 <= k <= s.len(),
    ensures
        digits_value(s.take(k)) <= digits_value(s),
    decreases s.len(),
{
    if k == s.len() {
        assert(s.take(k) =~= s);
    } else {
        assert(s.drop_last().take(k) =~= s.take(k));
        lemma_digits_value_prefix(s.drop_last(), k);
    }
}

/// Reads an unsigned integer numeral.
pub fn parse_u32(s: &[char]) -> (r: Option<u32>)
    ensures
        r == uint_value(s@),
{
    let d: &[char] = if s.len() > 0 && s[0] == '+' {
        slice_subrange(s, 1, s.len())
    } else {
        s
    };
    assert(d@ =~= if s@.len() > 0 && s@[0] == '+' {
        s@.skip(1)
    } else {
        s@
    });
    let n: usize = scan(d, CharClass::Digit);
    if d.len() == 0 || n < d.len() {
        return None;
    }
    proof {
        lemma_run_len_bounds(d@, CharClass::Digit);
    }
    let mut acc: u64 = 0;
    let mut i: usize = 0;
    assert(d@.take(0) =~= Seq::<char>::empty());
    while i < d.len()
        invariant
            i <= d@.len(),
            forall|j: int| 0 <= j < d@.len() ==> is_digit(#[trigger] d@[j]),
            acc == digits_value(d@.take(i as int)),
            acc <= u32::MAX,
            uint_value(s@) == if digits_value(d@) <= u32::MAX {
                Some(digits_value(d@) as u32)
            } else {
                None
            },
        decreases d@.len() - i,
    {
        let digit: u64 = (d[i] as u32 - '0' as u32) as u64;
        let next: u64 = acc * 10 + digit;
        proof {
            let p = d@.take(i + 1);
            assert(p.drop_last() =~= d@.take(i as int));
            assert(p.last() == d@[i as int]);
            assert(next == digits_value(p));
        }
        if next > 0xffff_ffff {
            proof {
                lemma_digits_value_prefix(d@, i + 1);
            }
            return None;
        }
        acc = next;
        i = i + 1;
    }
    assert(d@.take(i as int) =~= d@);
    Some(acc as u32)
}

/// Whether `c` is the lower-case letter `letter` or its upper-case form.
pub open spec fn is_letter(c: char, letter: char) -> bool {
    c == letter || c as u32 + 32 == letter as u32
}

/// Whether `s` spells the lower-case word `word`, letter case set aside.
pub open spec fn spells(s: Seq<char>, word: Seq<char>) -> bool {
    s.len() == word.len() && forall|i: int| 0 <= i < s.len() ==> is_letter(s[i], #[trigger] word[i])
}

/// The exponent of a numeral: `e` or `E`, an optional sign, and one or more
/// digits.
pub open spec fn is_exponent(s: Seq<char>) -> bool {
    s.len() > 0 && (s[0] == 'e' || s[0] == 'E') && {
        let d = unsigned_part(s.skip(1));
        d.len() >= 1 && all_digits(d)
    }
}

/// An unsigned decimal number: digits with at most one point among, before
/// or after them, at least one digit in all, and an optional exponent.
pub open spec fn is_number(s: Seq<char>) -> bool {
    let int_len = run_len(s, CharClass::Digit);
    let after_int = s.skip(int_len as int);
    let has_point = after_int.len() > 0 && after_int[0] == '.';
    let frac = if has_point {
        after_int.skip(1)
    } else {
        after_int
    };
    let frac_len = if has_point {
        run_len(frac, CharClass::Digit)
    } else {
        0
    };
    let tail = frac.skip(frac_len as int);
    int_len + frac_len >= 1 && (tail.len() == 0 || is_exponent(tail))
}

/// The numerals of floating-point numbers: an optional sign, then `inf`,
/// `infinity` or `nan` in any letter case, or an unsigned decimal number.
pub open spec fn is_float_literal(s: Seq<char>) -> bool {
    let body = unsigned_part(s);
    spells(body, "inf"@) || spells(body, "infinity"@) || spells(body, "nan"@) || is_number(body)
}

/// Whether `c` is the lower-case letter `letter` or its upper-case form.
fn same_letter(c: char, letter: char) -> (r: bool)
    ensures
        r == is_letter(c, letter),
{
    let code: u32 = c as u32;
    proof {
        vstd::utf8::char_is_scalar(c);
    }
    c == letter || code + 32 == letter as u32
}

/// Whether `s` spells the lower-case word `word`, letter case set aside.
pub fn spells_word(s: &[char], word: &str) -> (r: bool)
    ensures
        r == spells(s@, word@),
{
    let mut i: usize = 0;
    let mut same: bool = true;
    for c in it: word.chars()
        invariant
            it.seq() == word@,
            i <= s@.len(),
            same ==> i == it.index() && forall|j: int|
                0 <= j < i ==> is_letter(s@[j], #[trigger] word@[j]),
            !same ==> !spells(s@, word@),
    {
        if same && i < s.len() && same_letter(s[i], c) {
            i = i + 1;
        } else {
            if same && i < s.len() {
                assert(!is_letter(s@[i as int], word@[i as int]));
            }
            same = false;
        }
    }
    same && i == s.len()
}

/// Whether `s` is an exponent.
fn exponent(s: &[char]) -> (r: bool)
    ensures
        r == is_exponent(s@),
{
    if s.len() == 0 || !(s[0] == 'e' || s[0] == 'E') {
        return false;
    }
    let t: &[char] = slice_subrange(s, 1, s.len());
    assert(t@ =~= s@.skip(1));
    let d: &[char] = if t.len() > 0 && (t[0] == '+' || t[0] == '-') {
        slice_subrange(t, 1, t.len())
    } else {
        t
    };
    assert(d@ =~= unsigned_part(t@));
    let n: usize = scan(d, CharClass::Digit);
    d.len() >= 1 && n == d.len()
}

/// Whether `s` is an unsigned decimal number.
fn number(s: &[char]) -> (r: bool)
    ensures
        r == is_number(s@),
{
    let int_len: usize = scan(s, CharClass::Digit);
    let after_int: &[char] = slice_subrange(s, int_len, s.len());
    assert(after_int@ =~= s@.skip(int_len as int));
    let has_point: bool = after_int.len() > 0 && after_int[0] == '.';
    let frac: &[char] = if has_point {
        slice_subrange(after_int, 1, after_int.len())
    } else {
        after_int
    };
    assert(frac@ =~= if has_point {
        after_int@.skip(1)
    } else {
        after_int@
    });
    let frac_len: usize = if has_point {
        scan(frac, CharClass::Digit)
    } else {
        0
    };
    let tail: &[char] = slice_subrange(frac, frac_len, frac.len());
    assert(tail@ =~= frac@.skip(frac_len as int));
    if int_len == 0 && frac_len == 0 {
        return false;
    }
    tail.len() == 0 || exponent(tail)
}

/// Whether `s` is the numeral of a floating-point number.
pub fn is_float(s: &[char]) -> (r: bool)
    ensures
        r == is_float_literal(s@),
{
    let body: &[char] = if s.len() > 0 && (s[0] == '+' || s[0] == '-') {
        slice_subrange(s, 1, s.len())
    } else {
        s
    };
    assert(body@ =~= unsigned_part(s@));
    spells_word(body, "inf") || spells_word(body, "infinity") || spells_word(body, "nan")
        || number(body)
}

/// The numeral of a floating-point number, kept exactly as it was written.
/// Which number it denotes is for the caller to compute.
#[derive(Debug, PartialEq, Eq)]
pub struct Decimal {
    text: String,
}

impl View for Decimal {
    type V = Seq<char>;

    closed spec fn view(&self) -> Seq<char> {
        self.text@
    }
}

impl Decimal {
    #[verifier::type_invariant]
    spec fn well_formed(&self) -> bool {
        is_float_literal(self.text@)
    }

    /// The numeral that `token` spells, if it spells one.
    pub fn parse(token: &[char]) -> (r: Option<Decimal>)
        ensures
            is_float_literal(token@) ==> r is Some && r->0@ == token@,
            !is_float_literal(token@) ==> r is None,
    {
        if is_float(token) {
            Some(Decimal { text: string_of(token) })
        } else {
            None
        }
    }

    /// The numeral `0.0`.
    pub fn zero() -> (r: Decimal)
        ensures
            r@ == "0.0"@,
    {
        proof {
            lemma_default_numerals();
        }
        Decimal { text: "0.0".to_owned() }
    }

    /// The numeral `1.0`.
    pub fn one() -> (r: Decimal)
        ensures
            r@ == "1.0"@,
    {
        proof {
            lemma_default_numerals();
        }
        Decimal { text: "1.0".to_owned() }
    }

    /// The numeral as text.
    pub fn as_str(&self) -> (r: &str)
        ensures
            r@ == self@,
            is_float_literal(r@),
    {
        proof {
            use_type_invariant(self);
        }
        self.text.as_str()
    }
}

impl Clone for Decimal {
    fn clone(&self) -> (r: Decimal)
        ensures
            r@ == self@,
    {
        proof {
            use_type_invariant(self);
        }
        Decimal { text: self.text.clone() }
    }
}

/// `0.0` and `1.0` are numerals.
pub proof fn lemma_default_numerals()
    ensures
        is_float_literal("0.0"@),
        is_float_literal("1.0"@),
{
    reveal_strlit("0.0");
    reveal_strlit("1.0");
    lemma_point_zero("0.0"@);
    lemma_point_zero("1.0"@);
}

/// A digit, a point and a digit make a numeral.
proof fn lemma_point_zero(s: Seq<char>)
    requires
        s.len() == 3,
        is_digit(s[0]),
        s[1] == '.',
        is_digit(s[2]),
    ensures
        is_float_literal(s),
{
    assert(unsigned_part(s) == s);
    crate::text::lemma_run_len(s, CharClass::Digit, 1);
    let after_int = s.skip(1);
    let frac = after_int.skip(1);
    crate::text::lemma_run_len(frac, CharClass::Digit, 1);
    assert(frac.skip(1).len() == 0);
    assert(is_number(s));
}

} // verus!
