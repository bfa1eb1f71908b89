//! Small text helpers shared across the crate: string comparison and
//! decimal rendering of numbers.

use vstd::prelude::*;
use vstd::string::*;
use crate::paths::lower_char;

verus! {

/// The decimal digit character for a value below ten.
pub open spec fn dec_digit(d: int) -> char {
    if d == 0 {
        '0'
    } else if d == 1 {
        '1'
    } else if d == 2 {
        '2'
    } else if d == 3 {
        '3'
    } else if d == 4 {
        '4'
    } else if d == 5 {
        '5'
    } else if d == 6 {
        '6'
    } else if d == 7 {
        '7'
    } else if d == 8 {
        '8'
    } else {
        '9'
    }
}

/// The usual decimal rendering of a number, without sign or padding.
pub open spec fn dec_str(n: nat) -> Seq<char>
    decreases n,
{
    if n < 10 {
        seq![dec_digit(n as int)]
    } else {
        dec_str(n / 10).push(dec_digit((n % 10) as int))
    }
}

/// Compares two strings by their character sequences.
pub fn str_eq(a: &str, b: &str) -> (r: bool)
    ensures
        r == (a@ == b@),
{
    let n = a.unicode_len();
    if n != b.unicode_len() {
        return false;
    }
    let mut i: usize = 0;
    while i < n
        invariant
            i <= n,
            n == a@.len(),
            n == b@.len(),
            forall|j: int| 0 <= j < i ==> a@[j] == b@[j],
        decreases n - i,
    {
        if a.get_char(i) != b.get_char(i) {
            return false;
        }
        i = i + 1;
    }
    proof {
        assert(a@ =~= b@);
    }
    true
}

/// The one-character string for a decimal digit.
fn digit_str(d: u16) -> (r: &'static str)
    requires
        d < 10,
    ensures
        r@ == seq![dec_digit(d as int)],
{
    proof {
        reveal_strlit("0");
        reveal_strlit("1");
        reveal_strlit("2");
        reveal_strlit("3");
        reveal_strlit("4");
        reveal_strlit("5");
        reveal_strlit("6");
        reveal_strlit("7");
        reveal_strlit("8");
        reveal_strlit("9");
    }
    let r = match d {
        0 => "0",
        1 => "1",
        2 => "2",
        3 => "3",
        4 => "4",
        5 => "5",
        6 => "6",
        7 => "7",
        8 => "8",
        _ => "9",
    };
    assert(r@ =~= seq![dec_digit(d as int)]);
    r
}

/// Renders a number in decimal.
pub fn u16_to_string(n: u16) -> (s: String)
    ensures
        s@ == dec_str(n as nat),
    decreases n,
{
    if n < 10 {
        digit_str(n).to_owned()
    } else {
        let mut s = u16_to_string(n / 10);
        s.append(digit_str(n % 10));
        assert(s@ =~= dec_str((n / 10) as nat).push(dec_digit((n % 10) as int)));
        s
    }
}

/// The four characters starting at `i` spell `true` once lowercased.
pub open spec fn true_at(s: Seq<char>, i: int) -> bool {
    &&& 0 <= i
    &&& i + 4 <= s.len()
    &&& lower_char(s[i]) == 't'
    &&& lower_char(s[i + 1]) == 'r'
    &&& lower_char(s[i + 2]) == 'u'
    &&& lower_char(s[i + 3]) == 'e'
}

/// Whether the text contains the word `true` in any letter case, as a
/// privilege probe's output does exactly when the check passed.
pub fn contains_true_ignore_case(out: &str) -> (b: bool)
    ensures
        b == exists|i: int| true_at(out@, i),
{
    let n = out.unicode_len();
    if n < 4 {
        return false;
    }
    let mut i: usize = 0;
    while i <= n - 4
        invariant
            n == out@.len(),
            4 <= n,
            i <= n - 3,
            forall|j: int| 0 <= j < i ==> !true_at(out@, j),
        decreases n - i,
    {
        let hit = char_lower_is(out.get_char(i), 't') && char_lower_is(out.get_char(i + 1), 'r')
            && char_lower_is(out.get_char(i + 2), 'u') && char_lower_is(out.get_char(i + 3), 'e');
        if hit {
            assert(true_at(out@, i as int));
            return true;
        }
        i = i + 1;
    }
    assert(forall|j: int| true_at(out@, j) ==> 0 <= j && j + 4 <= n);
    false
}

/// Whether a character lowercases to the given lowercase letter.
pub(crate) fn char_lower_is(c: char, want: char) -> (r: bool)
    ensures
        r == (lower_char(c) == want),
{
    let x = c as u32;
    let lx = if 65 <= x && x <= 90 {
        x + 32
    } else {
        x
    };
    lx == want as u32
}

} // verus!
