//! Small text helpers: decimal rendering, joining and case folding.

use vstd::prelude::*;
use vstd::string::StringExecFns;

verus! {

/// What `str::to_lowercase` returns for a string with these characters.
pub uninterp spec fn lowercase_of(s: Seq<char>) -> Seq<char>;

/// Calls `str::to_lowercase` of the standard library, which maps each
/// character to its Unicode lowercase form. The contract only names the
/// result: equal input gives equal output.
#[verifier::external_body]
pub(crate) fn to_lowercase(s: &str) -> (lowered: String)
    ensures
        lowered@ == lowercase_of(s@),
{
    s.to_lowercase()
}

/// What `str::trim` returns for a string with these characters.
pub uninterp spec fn trimmed_of(s: Seq<char>) -> Seq<char>;

/// Calls `str::trim` of the standard library, which takes the white space
/// off both ends of a string. The contract only names the result: equal
/// input gives equal output.
#[verifier::external_body]
pub(crate) fn trimmed(s: &str) -> (cut: String)
    ensures
        cut@ == trimmed_of(s@),
{
    s.trim().to_string()
}

/// The character of a decimal digit.
pub open spec fn digit_char(d: nat) -> char {
    if d == 0 {
        '0'
    } else if d == 1 {
        '1'
    } else if d == 2 {
        '2'
    } else if d == 3 {
        '3'
    } else if d == 4 {
        '4'
    } else if d == 5 {
        '5'
    } else if d == 6 {
        '6'
    } else if d == 7 {
        '7'
    } else if d == 8 {
        '8'
    } else {
        '9'
    }
}

/// The decimal numeral of `n`, without sign or leading zeros.
pub open spec fn decimal(n: nat) -> Seq<char>
    decreases n,
{
    if n < 10 {
        seq![digit_char(n)]
    } else {
        decimal(n / 10).push(digit_char(n % 10))
    }
}

/// The decimal numeral of `n`, with a leading zero where it has one digit.
pub open spec fn decimal_two(n: nat) -> Seq<char> {
    if n < 10 {
        seq!['0', digit_char(n)]
    } else {
        decimal(n)
    }
}

/// The strings of `parts` in order, with `sep` between neighbours.
pub open spec fn joined(parts: Seq<Seq<char>>, sep: Seq<char>) -> Seq<char>
    decreases parts.len(),
{
    if parts.len() == 0 {
        Seq::empty()
    } else if parts.len() == 1 {
        parts[0]
    } else {
        joined(parts.drop_last(), sep) + sep + parts.last()
    }
}

fn digit_str(d: u64) -> (s: &'static str)
    requires
        d < 10,
    ensures
        s@ == seq![digit_char(d as nat)],
{
    proof {
        reveal_strlit("0");
        reveal_strlit("1");
        reveal_strlit("2");
        reveal_strlit("3");
        reveal_strlit("4");
        reveal_strlit("5");
        reveal_strlit("6");
        reveal_strlit("7");
        reveal_strlit("8");
        reveal_strlit("9");
    }
    let s: &'static str = if d == 0 {
        "0"
    } else if d == 1 {
        "1"
    } else if d == 2 {
        "2"
    } else if d == 3 {
        "3"
    } else if d == 4 {
        "4"
    } else if d == 5 {
        "5"
    } else if d == 6 {
        "6"
    } else if d == 7 {
        "7"
    } else if d == 8 {
        "8"
    } else {
        "9"
    };
    assert(s@ =~= seq![digit_char(d as nat)]);
    s
}

/// Renders `n` in decimal.
pub fn render_decimal(n: u64) -> (s: String)
    ensures
        s@ == decimal(n as nat),
    decreases n,
{
    if n < 10 {
        String::from_str(digit_str(n))
    } else {
        let mut s: String = render_decimal(n / 10);
        s.append(digit_str(n % 10));
        assert(s@ =~= decimal(n as nat));
        s
    }
}

/// Renders `n` in decimal, padded with a zero to two digits.
pub fn render_two_digits(n: u32) -> (s: String)
    ensures
        s@ == decimal_two(n as nat),
{
    if n < 10 {
        proof {
            reveal_strlit("0");
        }
        let mut s: String = String::from_str("0");
        s.append(digit_str(n as u64));
        assert(s@ =~= decimal_two(n as nat));
        s
    } else {
        render_decimal(n as u64)
    }
}

/// Joins `parts` with `sep` between neighbours.
pub fn join(parts: &[String], sep: &str) -> (s: String)
    ensures
        s@ == joined(parts@.map_values(|p: String| p@), sep@),
{
    let ghost views = parts@.map_values(|p: String| p@);
    let mut s: String = String::new();
    let mut i: usize = 0;
    assert(views.take(0) =~= Seq::<Seq<char>>::empty());
    while i < parts.len()
        invariant
            i <= parts.len(),
            views == parts@.map_values(|p: String| p@),
            s@ == joined(views.take(i as int), sep@),
        decreases parts.len() - i,
    {
        let ghost before = views.take(i as int);
        let ghost after = views.take(i + 1);
        assert(after.drop_last() =~= before);
        assert(after.last() == parts@[i as int]@);
        if i > 0 {
            s.append(sep);
        }
        s.append(parts[i].as_str());
        assert(s@ =~= joined(after, sep@));
        i += 1;
    }
    assert(views.take(i as int) =~= views);
    s
}

/// The decimal numeral of `n`, with a minus sign before a negative one.
pub open spec fn signed_decimal(n: int) -> Seq<char> {
    if n < 0 {
        "-"@ + decimal((-n) as nat)
    } else {
        decimal(n as nat)
    }
}

/// Renders `n` in decimal.
pub fn render_signed(n: i64) -> (s: String)
    ensures
        s@ == signed_decimal(n as int),
{
    if n < 0 {
        let magnitude: u64 = (-(n as i128)) as u64;
        let mut s: String = String::from_str("-");
        let digits: String = render_decimal(magnitude);
        s.append(digits.as_str());
        s
    } else {
        render_decimal(n as u64)
    }
}

/// Joins `parts` with `sep` between neighbours.
pub fn join_strs(parts: &[&str], sep: &str) -> (s: String)
    ensures
        s@ == joined(parts@.map_values(|p: &str| p@), sep@),
{
    let ghost views = parts@.map_values(|p: &str| p@);
    let mut s: String = String::new();
    let mut i: usize = 0;
    assert(views.take(0) =~= Seq::<Seq<char>>::empty());
    while i < parts.len()
        invariant
            i <= parts.len(),
            views == parts@.map_values(|p: &str| p@),
            s@ == joined(views.take(i as int), sep@),
        decreases parts.len() - i,
    {
        let ghost before = views.take(i as int);
        let ghost after = views.take(i + 1);
        assert(after.drop_last() =~= before);
        assert(after.last() == parts@[i as int]@);
        if i > 0 {
            s.append(sep);
        }
        s.append(parts[i]);
        assert(s@ =~= joined(after, sep@));
        i += 1;
    }
    assert(views.take(i as int) =~= views);
    s
}

/// The pieces of `s` from the piece that starts at `start`, when the
/// characters before `at` have been looked at: a piece ends before each
/// separator, and the last piece at the end of `s`.
pub open spec fn pieces(s: Seq<char>, sep: char, start: int, at: int) -> Seq<Seq<char>>
    decreases s.len() - at,
{
    if at < 0 || at >= s.len() {
        seq![s.subrange(start, s.len() as int)]
    } else if s[at] == sep {
        seq![s.subrange(start, at)] + pieces(s, sep, at + 1, at + 1)
    } else {
        pieces(s, sep, start, at + 1)
    }
}

/// The pieces into which the separator cuts `s`. There is always at least
/// one piece; two separators side by side have an empty piece between them.
pub open spec fn split_text(s: Seq<char>, sep: char) -> Seq<Seq<char>> {
    pieces(s, sep, 0, 0)
}

/// Cuts `s` at each separator.
pub fn split(s: &str, sep: char) -> (parts: Vec<String>)
    ensures
        parts@.map_values(|p: String| p@) == split_text(s@, sep),
        parts@.len() > 0,
{
    let n: usize = s.unicode_len();
    let mut parts: Vec<String> = Vec::new();
    let mut start: usize = 0;
    let mut at: usize = 0;
    assert(parts@.map_values(|p: String| p@) + pieces(s@, sep, 0, 0) =~= split_text(s@, sep));
    while at < n
        invariant
            n == s@.len(),
            start <= at <= n,
            parts@.map_values(|p: String| p@) + pieces(s@, sep, start as int, at as int)
                == split_text(s@, sep),
        decreases n - at,
    {
        if s.get_char(at) == sep {
            let ghost before = parts@.map_values(|p: String| p@);
            let piece: String = String::from_str(s.substring_char(start, at));
            parts.push(piece);
            assert(parts@.map_values(|p: String| p@) =~= before.push(s@.subrange(start as int, at as int)));
            assert(before.push(s@.subrange(start as int, at as int)) + pieces(
                s@,
                sep,
                at + 1,
                at + 1,
            ) =~= before + pieces(s@, sep, start as int, at as int));
            start = at + 1;
        }
        at += 1;
    }
    let ghost before = parts@.map_values(|p: String| p@);
    let piece: String = String::from_str(s.substring_char(start, n));
    parts.push(piece);
    assert(parts@.map_values(|p: String| p@) =~= before.push(s@.subrange(start as int, n as int)));
    assert(before.push(s@.subrange(start as int, n as int)) =~= before + pieces(
        s@,
        sep,
        start as int,
        at as int,
    ));
    parts
}

} // verus!
