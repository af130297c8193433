//! Text helpers: decimal rendering of integers, and the two `str` operations
//! the studies use (upper-casing, which calls std, and replacing
//! underscores).
use vstd::prelude::*;

verus! {

/// The decimal digit for `d` (`d < 10`).
pub open spec fn digit_char(d: nat) -> char {
    if d == 0 {
        '0'
    } else if d == 1 {
        '1'
    } else if d == 2 {
        '2'
    } else if d == 3 {
        '3'
    } else if d == 4 {
        '4'
    } else if d == 5 {
        '5'
    } else if d == 6 {
        '6'
    } else if d == 7 {
        '7'
    } else if d == 8 {
        '8'
    } else {
        '9'
    }
}

/// The decimal rendering of `n`, without leading zeros, as `Display` writes
/// an unsigned integer.
pub open spec fn decimal(n: nat) -> Seq<char>
    decreases n,
{
    if n < 10 {
        seq![digit_char(n)]
    } else {
        decimal(n / 10).push(digit_char(n % 10))
    }
}

fn digit_str(d: u64) -> (s: &'static str)
    requires
        d < 10,
    ensures
        s@ == seq![digit_char(d as nat)],
{
    proof {
        reveal_strlit("0");
        reveal_strlit("1");
        reveal_strlit("2");
        reveal_strlit("3");
        reveal_strlit("4");
        reveal_strlit("5");
        reveal_strlit("6");
        reveal_strlit("7");
        reveal_strlit("8");
        reveal_strlit("9");
    }
    if d == 0 {
        "0"
    } else if d == 1 {
        "1"
    } else if d == 2 {
        "2"
    } else if d == 3 {
        "3"
    } else if d == 4 {
        "4"
    } else if d == 5 {
        "5"
    } else if d == 6 {
        "6"
    } else if d == 7 {
        "7"
    } else if d == 8 {
        "8"
    } else {
        "9"
    }
}

/// Renders `n` in decimal.
pub fn decimal_string(n: u64) -> (s: String)
    ensures
        s@ == decimal(n as nat),
    decreases n,
{
    if n < 10 {
        String::from_str(digit_str(n))
    } else {
        let prefix = decimal_string(n / 10);
        let s = prefix.concat(digit_str(n % 10));
        proof {
            assert(s@ =~= decimal(n as nat));
        }
        s
    }
}

/// A percentage written as a fraction with two decimals, as `{:.2}` writes
/// `pct / 100`: `60` is `0.60`, `100` is `1.00`.
pub open spec fn two_decimals(pct: nat) -> Seq<char> {
    decimal(pct / 100) + "."@ + seq![digit_char((pct % 100) / 10), digit_char(pct % 10)]
}

/// Renders `pct / 100` with two decimals.
pub fn two_decimals_string(pct: u64) -> (s: String)
    ensures
        s@ == two_decimals(pct as nat),
{
    let whole = decimal_string(pct / 100);
    let mut s = whole;
    proof {
        reveal_strlit(".");
    }
    s.append(".");
    s.append(digit_str((pct % 100) / 10));
    s.append(digit_str(pct % 10));
    assert(s@ =~= two_decimals(pct as nat));
    s
}

/// The decimal rendering of a signed integer, with a leading `-` when it is
/// negative, as `Display` writes it.
pub open spec fn signed_decimal(i: int) -> Seq<char> {
    if i < 0 {
        seq!['-'] + decimal((-i) as nat)
    } else {
        decimal(i as nat)
    }
}

/// Renders `i` in decimal.
pub fn signed_decimal_string(i: i64) -> (s: String)
    ensures
        s@ == signed_decimal(i as int),
{
    if i < 0 {
        let magnitude: u64 = (-(i as i128)) as u64;
        let digits = decimal_string(magnitude);
        let mut s = String::from_str("-");
        proof {
            reveal_strlit("-");
        }
        s.append(digits.as_str());
        s
    } else {
        decimal_string(i as u64)
    }
}

/// `s` with every `'_'` replaced by a space.
pub open spec fn underscores_as_spaces(s: Seq<char>) -> Seq<char> {
    s.map_values(|c: char| if c == '_' { ' ' } else { c })
}

/// Whether every character of `s` is ASCII.
pub open spec fn is_ascii_text(s: Seq<char>) -> bool {
    forall|i: int| 0 <= i < s.len() ==> (s[i] as u32) < 128
}

/// The ASCII upper case of a character: `a`–`z` become `A`–`Z`, every other
/// character stays.
pub open spec fn ascii_upper(c: char) -> char {
    if 97 <= (c as u32) <= 122 {
        ((c as u32) - 32) as char
    } else {
        c
    }
}

/// What `str::to_uppercase` returns for a string: each character mapped by
/// Unicode's upper-case mapping (one character may become several).
pub uninterp spec fn uppercased(s: Seq<char>) -> Seq<char>;

/// The upper case of a string as the studies rely on it: the ASCII mapping
/// for ASCII text, what `str::to_uppercase` returns otherwise.
pub open spec fn upper_case_of(s: Seq<char>) -> Seq<char> {
    if is_ascii_text(s) {
        s.map_values(|c: char| ascii_upper(c))
    } else {
        uppercased(s)
    }
}

/// Calls `str::to_uppercase`. Its result is named [`uppercased`] of the
/// argument. Of ASCII text the contract also states what std documents and
/// Unicode's mapping gives: `a`–`z` become `A`–`Z` and the rest stays; of
/// other text it claims nothing more than the name.
#[verifier::external_body]
pub(crate) fn to_uppercase(s: &str) -> (upper: String)
    ensures
        upper@ == uppercased(s@),
        is_ascii_text(s@) ==> upper@ == s@.map_values(|c: char| ascii_upper(c)),
        upper@ == upper_case_of(s@),
{
    s.to_uppercase()
}

/// `s` with every `_` replaced by a space, as `str::replace('_', " ")` gives.
pub fn replace_underscores(s: &str) -> (replaced: String)
    ensures
        replaced@ == underscores_as_spaces(s@),
{
    let n = s.unicode_len();
    let mut out = String::new();
    let mut i: usize = 0;
    while i < n
        invariant
            n == s@.len(),
            0 <= i <= n,
            out@ == underscores_as_spaces(s@).take(i as int),
        decreases n - i,
    {
        let c = s.get_char(i);
        assert(underscores_as_spaces(s@)[i as int] == if c == '_' {
            ' '
        } else {
            c
        });
        if c == '_' {
            proof {
                reveal_strlit(" ");
            }
            out.append(" ");
        } else {
            let one = s.substring_char(i, i + 1);
            assert(one@ =~= seq![c]);
            out.append(one);
        }
        assert(out@ =~= underscores_as_spaces(s@).take(i + 1));
        i = i + 1;
    }
    assert(underscores_as_spaces(s@).take(n as int) =~= underscores_as_spaces(s@));
    out
}

} // verus!
