use crate::error::ImportError;
use crate::number::is_float_literal;
use crate::number::parse_u32;
use crate::number::uint_value;
use crate::number::Decimal;
use crate::text::chars_of;
use crate::model::views;
use crate::text::lines;
use crate::text::split_lines;
use crate::tokens::Tokens;
use crate::tokens::TokensView;
use crate::vector::Vector2;
use crate::vector::Vector3;
use vstd::prelude::*;

verus! {

/// The numeral that the next word of a line spells, if it spells one.
pub open spec fn float_field(v: TokensView) -> Option<Seq<char>> {
    match v.next().0 {
        Some(w) => if is_float_literal(w) {
            Some(w)
        } else {
            None
        },
        None => None,
    }
}

/// The unsigned integer that the next word of a line spells, if it spells
/// one.
pub open spec fn uint_field(v: TokensView) -> Option<u32> {
    match v.next().0 {
        Some(w) => uint_value(w),
        None => None,
    }
}

/// The three numerals that the next three words of a line spell, if each
/// spells one.
pub open spec fn vector3_field(v: TokensView) -> Option<(Seq<char>, Seq<char>, Seq<char>)> {
    let second = v.next().1;
    let third = second.next().1;
    match (float_field(v), float_field(second), float_field(third)) {
        (Some(x), Some(y), Some(z)) => Some((x, y, z)),
        _ => None,
    }
}

/// The two numerals that the next two words of a line spell, if each spells
/// one.
pub open spec fn vector2_field(v: TokensView) -> Option<(Seq<char>, Seq<char>)> {
    match (float_field(v), float_field(v.next().1)) {
        (Some(x), Some(y)) => Some((x, y)),
        _ => None,
    }
}

/// The reading of texts and of the fields of their lines.
pub struct Fs;

impl Fs {
    /// Reads the next word as the numeral of a floating-point number. A missing word
    /// and a word that is no numeral are both invalid data.
    pub fn parse_float(tokens: &mut Tokens) -> (r: Result<Decimal, ImportError>)
        ensures
            final(tokens)@ == old(tokens)@.next().1,
            match float_field(old(tokens)@) {
                Some(x) => r is Ok && r->Ok_0@ == x,
                None => r == Err::<Decimal, ImportError>(ImportError::InvalidData),
            },
    {
        match tokens.next() {
            Some(word) => match Decimal::parse(word) {
                Some(x) => Ok(x),
                None => Err(ImportError::InvalidData),
            },
            None => Err(ImportError::InvalidData),
        }
    }

    /// Reads the next word as an unsigned integer. A missing word and a word
    /// that is no such integer are both invalid data.
    pub fn parse_uint(tokens: &mut Tokens) -> (r: Result<u32, ImportError>)
        ensures
            final(tokens)@ == old(tokens)@.next().1,
            match uint_field(old(tokens)@) {
                Some(x) => r == Ok::<u32, ImportError>(x),
                None => r == Err::<u32, ImportError>(ImportError::InvalidData),
            },
    {
        match tokens.next() {
            Some(word) => match parse_u32(word) {
                Some(x) => Ok(x),
                None => Err(ImportError::InvalidData),
            },
            None => Err(ImportError::InvalidData),
        }
    }

    /// Reads the next three words as the components of a vector. A missing
    /// word and a word that is no numeral are both invalid data.
    pub fn parse_vector3(tokens: &mut Tokens) -> (r: Result<Vector3, ImportError>)
        ensures
            match vector3_field(old(tokens)@) {
                Some(v) => r is Ok && r->Ok_0@ == v,
                None => r == Err::<Vector3, ImportError>(ImportError::InvalidData),
            },
    {
        let x = match Fs::parse_float(tokens) {
            Ok(x) => x,
            Err(e) => {
                return Err(e);
            },
        };
        let y = match Fs::parse_float(tokens) {
            Ok(y) => y,
            Err(e) => {
                return Err(e);
            },
        };
        let z = match Fs::parse_float(tokens) {
            Ok(z) => z,
            Err(e) => {
                return Err(e);
            },
        };
        Ok(Vector3::new(x, y, z))
    }

    /// Reads the next two words as the components of a vector. A missing
    /// word and a word that is no numeral are both invalid data.
    pub fn parse_vector2(tokens: &mut Tokens) -> (r: Result<Vector2, ImportError>)
        ensures
            match vector2_field(old(tokens)@) {
                Some(v) => r is Ok && r->Ok_0@ == v,
                None => r == Err::<Vector2, ImportError>(ImportError::InvalidData),
            },
    {
        let x = match Fs::parse_float(tokens) {
            Ok(x) => x,
            Err(e) => {
                return Err(e);
            },
        };
        let y = match Fs::parse_float(tokens) {
            Ok(y) => y,
            Err(e) => {
                return Err(e);
            },
        };
        Ok(Vector2::new(x, y))
    }

    /// Splits a text into its lines.
    pub fn parse_lines(text: &str) -> (r: Vec<Vec<char>>)
        ensures
            views(r@) == lines(text@),
    {
        let chars = chars_of(text);
        split_lines(chars.as_slice())
    }
}

} // verus!
