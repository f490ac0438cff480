//! Parsing of the values that sub-commands take: relay state literals,
//! controller numbers, temperature units and setpoints.
use vstd::prelude::*;
use crate::device::{Degree, RelayState};
use crate::text::{ascii_lower, lemma_lower_keeps_non_letters, lower_seq};

verus! {

/// The relay state that `s` names: `on` or `1` for on, `off` or `0` for off,
/// letters in either case.
pub open spec fn state_literal(s: Seq<char>) -> Option<RelayState> {
    let l = lower_seq(s);
    if l == seq!['o', 'n'] || l == seq!['1'] {
        Some(RelayState::On)
    } else if l == seq!['o', 'f', 'f'] || l == seq!['0'] {
        Some(RelayState::Off)
    } else {
        None
    }
}

/// The unit that `s` names: `F` or `C`, in either case.
pub open spec fn degree_literal(s: Seq<char>) -> Option<Degree> {
    let l = lower_seq(s);
    if l == seq!['f'] {
        Some(Degree::Fahrenheit)
    } else if l == seq!['c'] {
        Some(Degree::Celsius)
    } else {
        None
    }
}

pub open spec fn is_digit(c: char) -> bool {
    '0' <= c && c <= '9'
}

pub open spec fn digit_value(c: char) -> nat {
    ((c as u32) - 48) as nat
}

pub open spec fn all_digits(s: Seq<char>) -> bool {
    forall|i: int| 0 <= i < s.len() ==> is_digit(#[trigger] s[i])
}

/// The number that a string of decimal digits denotes.
pub open spec fn digits_value(s: Seq<char>) -> nat
    decreases s.len(),
{
    if s.len() == 0 {
        0
    } else {
        digits_value(s.drop_last()) * 10 + digit_value(s.last())
    }
}

/// The highest controller number that a board can be given.
pub const MAX_CONTROLLER_NUMBER: u8 = 254;

/// The controller number that `s` writes in decimal digits, if it is one
/// in `0..=254`.
pub open spec fn controller_number(s: Seq<char>) -> Option<u8> {
    if s.len() > 0 && all_digits(s) && digits_value(s) <= MAX_CONTROLLER_NUMBER {
        Some(digits_value(s) as u8)
    } else {
        None
    }
}

/// `s` without a leading `+` or `-`.
pub open spec fn unsigned_part(s: Seq<char>) -> Seq<char> {
    if s.len() > 0 && (s[0] == '-' || s[0] == '+') {
        s.skip(1)
    } else {
        s
    }
}

/// A decimal number: an optional sign, then digits with at most one `.`
/// among them, and at least one digit.
pub open spec fn is_decimal_literal(s: Seq<char>) -> bool {
    let b = unsigned_part(s);
    &&& exists|i: int| 0 <= i < b.len() && is_digit(#[trigger] b[i])
    &&& forall|i: int| 0 <= i < b.len() ==> is_digit(#[trigger] b[i]) || b[i] == '.'
    &&& forall|i: int, j: int|
        0 <= i < b.len() && 0 <= j < b.len() && #[trigger] b[i] == '.' && #[trigger] b[j] == '.'
            ==> i == j
}

/// Reads a relay state literal.
pub fn parse_state(s: &str) -> (r: Option<RelayState>)
    ensures
        r == state_literal(s@),
{
    let n = s.unicode_len();
    let ghost l = lower_seq(s@);
    assert(l.len() == n);
    assert(seq!['o', 'n'].len() == 2 && seq!['1'].len() == 1);
    assert(seq!['o', 'f', 'f'].len() == 3 && seq!['0'].len() == 1);
    if n == 1 {
        let c = s.get_char(0);
        proof {
            lemma_lower_keeps_non_letters(c);
        }
        if c == '1' {
            assert(l =~= seq!['1']);
            Some(RelayState::On)
        } else if c == '0' {
            assert(l =~= seq!['0']);
            Some(RelayState::Off)
        } else {
            assert(l[0] != '1' && l[0] != '0');
            None
        }
    } else if n == 2 {
        if ascii_lower(s.get_char(0)) == 'o' && ascii_lower(s.get_char(1)) == 'n' {
            assert(l =~= seq!['o', 'n']);
            Some(RelayState::On)
        } else {
            assert(l != seq!['o', 'n']);
            None
        }
    } else if n == 3 {
        if ascii_lower(s.get_char(0)) == 'o' && ascii_lower(s.get_char(1)) == 'f'
            && ascii_lower(s.get_char(2)) == 'f' {
            assert(l =~= seq!['o', 'f', 'f']);
            Some(RelayState::Off)
        } else {
            assert(l != seq!['o', 'f', 'f']);
            None
        }
    } else {
        None
    }
}

/// Reads a temperature unit.
pub fn parse_degree(s: &str) -> (r: Option<Degree>)
    ensures
        r == degree_literal(s@),
{
    let n = s.unicode_len();
    let ghost l = lower_seq(s@);
    assert(l.len() == n);
    assert(seq!['f'].len() == 1 && seq!['c'].len() == 1);
    if n == 1 {
        let c = ascii_lower(s.get_char(0));
        assert(l[0] == c);
        if c == 'f' {
            assert(l =~= seq!['f']);
            Some(Degree::Fahrenheit)
        } else if c == 'c' {
            assert(l =~= seq!['c']);
            assert(l != seq!['f']);
            Some(Degree::Celsius)
        } else {
            assert(l[0] != 'f' && l[0] != 'c');
            None
        }
    } else {
        assert(l != seq!['f'] && l != seq!['c']);
        None
    }
}

proof fn lemma_digits_prefix_monotone(s: Seq<char>, k: int)
    requires
        0 <= k <= s.len(),
    ensures
        digits_value(s.take(k)) <= digits_value(s),
    decreases s.len(),
{
    if k < s.len() {
        assert(s.drop_last().take(k) =~= s.take(k));
        lemma_digits_prefix_monotone(s.drop_last(), k);
    } else {
        assert(s.take(k) =~= s);
    }
}

/// Reads a controller number written in decimal digits.
pub fn parse_controller_number(s: &str) -> (r: Option<u8>)
    ensures
        r == controller_number(s@),
{
    let n = s.unicode_len();
    if n == 0 {
        return None;
    }
    let mut v: u64 = 0;
    let mut i: usize = 0;
    while i < n
        invariant
            n == s@.len(),
            i <= n,
            v <= MAX_CONTROLLER_NUMBER,
            v == digits_value(s@.take(i as int)),
            all_digits(s@.take(i as int)),
        decreases n - i,
    {
        let c = s.get_char(i);
        if c < '0' || c > '9' {
            assert(!is_digit(s@[i as int]));
            return None;
        }
        let d = (c as u32 - 48) as u64;
        v = v * 10 + d;
        proof {
            let t = s@.take(i + 1);
            assert(t.drop_last() =~= s@.take(i as int));
            assert(all_digits(t));
        }
        i = i + 1;
        if v > MAX_CONTROLLER_NUMBER as u64 {
            proof {
                lemma_digits_prefix_monotone(s@, i as int);
            }
            return None;
        }
    }
    assert(s@.take(n as int) =~= s@);
    Some(v as u8)
}

/// A setpoint as the decimal literal that the user wrote.
#[derive(Clone, Debug, PartialEq, Eq)]
pub struct Decimal {
    text: String,
}

impl View for Decimal {
    type V = Seq<char>;

    closed spec fn view(&self) -> Seq<char> {
        self.text@
    }
}

impl Decimal {
    /// Reads a decimal literal.
    pub fn parse(s: &str) -> (r: Option<Decimal>)
        ensures
            r is Some <==> is_decimal_literal(s@),
            r matches Some(d) ==> d@ == s@,
    {
        let n = s.unicode_len();
        let mut start: usize = 0;
        if n > 0 {
            let c = s.get_char(0);
            if c == '-' || c == '+' {
                start = 1;
            }
        }
        let ghost b = unsigned_part(s@);
        assert(b =~= s@.skip(start as int));
        let mut seen_digit = false;
        let mut dot: Option<usize> = None;
        let mut i: usize = start;
        while i < n
            invariant
                n == s@.len(),
                start <= i <= n,
                b == s@.skip(start as int),
                b == unsigned_part(s@),
                seen_digit <==> exists|k: int| 0 <= k < i - start && is_digit(#[trigger] b[k]),
                forall|k: int| 0 <= k < i - start ==> is_digit(#[trigger] b[k]) || b[k] == '.',
                dot matches Some(p) ==> start <= p < i && b[p - start] == '.',
                forall|k: int|
                    0 <= k < i - start && #[trigger] b[k] == '.' ==> (dot matches Some(p) && k
                        == p - start),
            decreases n - i,
        {
            let c = s.get_char(i);
            assert(b[i - start] == c);
            if '0' <= c && c <= '9' {
                seen_digit = true;
            } else if c == '.' {
                if dot.is_some() {
                    assert(!is_decimal_literal(s@));
                    return None;
                }
                dot = Some(i);
            } else {
                assert(!is_decimal_literal(s@));
                return None;
            }
            i = i + 1;
        }
        if !seen_digit {
            assert(!is_decimal_literal(s@));
            return None;
        }
        Some(Decimal { text: String::from_str(s) })
    }

    /// The literal as written.
    pub fn text(&self) -> (r: &str)
        ensures
            r@ == self@,
    {
        self.text.as_str()
    }
}

} // verus!
