//! Numbers written in a path. The service computes with them as `f32`; the
//! library keeps the exact decimal the path spelled, in canonical form, so that
//! two spellings of one number compare equal.
use vstd::prelude::*;
use crate::grammar::{decimal_at, decimal_text, parse_decimal};
use crate::text::{int_text, push_int, str_chars, string_of};

verus! {

/// A decimal number in canonical text: no leading zeros, no trailing zeros in
/// the fraction, no sign on zero.
#[derive(Debug, Clone, PartialEq, Eq, Default)]
pub struct F32<S = String> {
    pub text: S,
}

impl View for F32<String> {
    type V = F32<Seq<char>>;

    open spec fn view(&self) -> F32<Seq<char>> {
        F32 { text: self.text@ }
    }
}

/// The number that a whole text spells, if it is a decimal.
pub open spec fn decimal_of(s: Seq<char>) -> Option<Seq<char>> {
    match decimal_at(s, 0) {
        Some((e, t)) => if e == s.len() {
            Some(t)
        } else {
            None
        },
        None => None,
    }
}

/// A number's canonical text reads back as the same number: whatever a
/// text parses to, its own text parses to it again.
pub proof fn law_f32_text_round_trip(s: Seq<char>)
    ensures
        decimal_of(s) matches Some(t) ==> decimal_of(t) == Some(t),
{
    if decimal_of(s) is Some {
        crate::grammar::law_decimal_canonical(s, 0);
    }
}

impl F32<String> {
    /// The number that `s` spells: an optional `-`, digits, and optionally a dot
    /// and more digits.
    pub fn parse(s: &str) -> (r: Option<F32>)
        ensures
            match decimal_of(s@) {
                Some(t) => r matches Some(f) && f@.text == t,
                None => r is None,
            },
    {
        let cs = str_chars(s);
        match parse_decimal(&cs, 0) {
            Some((e, t)) => {
                if e == cs.len() {
                    Some(F32 { text: string_of(&t) })
                } else {
                    None
                }
            },
            None => None,
        }
    }

    /// The number equal to an integer.
    pub fn from_int(i: i64) -> (r: F32)
        ensures
            r@.text == int_text(i as int),
    {
        let mut out: Vec<char> = Vec::new();
        push_int(&mut out, i);
        F32 { text: string_of(&out) }
    }

    /// The number from already separated parts: sign, integer digits, fraction digits.
    pub fn from_parts(neg: bool, int_digits: &[char], frac_digits: &[char]) -> (r: F32)
        ensures
            r@.text == decimal_text(neg, int_digits@, frac_digits@),
    {
        let mut all: Vec<char> = Vec::new();
        crate::text::push_all(&mut all, int_digits);
        crate::text::push_all(&mut all, frac_digits);
        let n = int_digits.len();
        proof {
            assert(all@.subrange(0, n as int) =~= int_digits@);
            assert(all@.subrange(n as int, all@.len() as int) =~= frac_digits@);
        }
        let t = crate::grammar::decimal_chars(neg, &all, 0, n, n, all.len());
        F32 { text: string_of(&t) }
    }

    /// Whether two numbers are equal.
    pub fn same(&self, other: &F32) -> (r: bool)
        ensures
            r == (self@ == other@),
    {
        self.text == other.text
    }

    /// The canonical text.
    pub fn as_str(&self) -> (r: &str)
        ensures
            r@ == self@.text,
    {
        self.text.as_str()
    }
}

} // verus!
