//! Text produced for the dashboard: decimal numbers, lap times, labels.

use vstd::prelude::*;

verus! {

/// The character of a decimal digit.
pub open spec fn digit_char(d: nat) -> char {
    if d == 0 {
        '0'
    } else if d == 1 {
        '1'
    } else if d == 2 {
        '2'
    } else if d == 3 {
        '3'
    } else if d == 4 {
        '4'
    } else if d == 5 {
        '5'
    } else if d == 6 {
        '6'
    } else if d == 7 {
        '7'
    } else if d == 8 {
        '8'
    } else {
        '9'
    }
}

/// The decimal text of a natural number, without leading zeros.
pub open spec fn decimal(n: nat) -> Seq<char>
    decreases n,
{
    if n < 10 {
        seq![digit_char(n)]
    } else {
        decimal(n / 10).push(digit_char(n % 10))
    }
}

/// The three digits of a number below one thousand, padded with zeros.
pub open spec fn three_digits(n: nat) -> Seq<char> {
    seq![digit_char(n / 100), digit_char((n / 10) % 10), digit_char(n % 10)]
}

/// A lap time given in milliseconds, shown as `minutes:seconds.millis`.
/// The minutes wrap at an hour and the seconds are not padded.
pub open spec fn lap_time_text(millis: nat) -> Seq<char> {
    let secs = millis / 1000;
    decimal((secs / 60) % 60) + seq![':'] + decimal(secs % 60) + seq!['.'] + three_digits(
        millis % 1000,
    )
}

/// Relies on String::push: the character is appended at the end.
#[verifier::external_body]
fn push_char(s: &mut String, c: char)
    ensures
        final(s)@ == old(s)@.push(c),
{
    s.push(c)
}

fn digit(d: u64) -> (c: char)
    requires
        d < 10,
    ensures
        c == digit_char(d as nat),
{
    if d == 0 {
        '0'
    } else if d == 1 {
        '1'
    } else if d == 2 {
        '2'
    } else if d == 3 {
        '3'
    } else if d == 4 {
        '4'
    } else if d == 5 {
        '5'
    } else if d == 6 {
        '6'
    } else if d == 7 {
        '7'
    } else if d == 8 {
        '8'
    } else {
        '9'
    }
}

/// Appends the decimal text of `n`.
pub fn push_decimal(s: &mut String, n: u64)
    ensures
        final(s)@ == old(s)@ + decimal(n as nat),
    decreases n,
{
    if n >= 10 {
        push_decimal(s, n / 10);
    }
    push_char(s, digit(n % 10));
    assert(final(s)@ =~= old(s)@ + decimal(n as nat));
}

/// The decimal text of `n`.
pub fn decimal_string(n: u64) -> (r: String)
    ensures
        r@ == decimal(n as nat),
{
    let mut s = String::new();
    push_decimal(&mut s, n);
    assert(s@ =~= decimal(n as nat));
    s
}

/// Formats a lap or sector time given in milliseconds.
pub fn to_lap_time(lap_time_millis: u64) -> (r: String)
    ensures
        r@ == lap_time_text(lap_time_millis as nat),
{
    let secs = lap_time_millis / 1000;
    let millis = lap_time_millis % 1000;
    let mut s = String::new();
    push_decimal(&mut s, (secs / 60) % 60);
    push_char(&mut s, ':');
    push_decimal(&mut s, secs % 60);
    push_char(&mut s, '.');
    push_char(&mut s, digit(millis / 100));
    push_char(&mut s, digit((millis / 10) % 10));
    push_char(&mut s, digit(millis % 10));
    assert(s@ =~= lap_time_text(lap_time_millis as nat));
    s
}

/// The index of the first space at or after `i`, or the length of `s` when
/// there is none.
pub open spec fn space_from(s: Seq<char>, i: int) -> int
    decreases s.len() - i,
{
    if i >= s.len() {
        s.len() as int
    } else if s[i] == ' ' {
        i
    } else {
        space_from(s, i + 1)
    }
}

/// The second of the space-separated tokens of `s`, if `s` holds a space.
pub open spec fn second_token(s: Seq<char>) -> Option<Seq<char>> {
    let a = space_from(s, 0);
    if a >= s.len() {
        None
    } else {
        Some(s.subrange(a + 1, space_from(s, a + 1)))
    }
}

proof fn lemma_space_from_bounds(s: Seq<char>, i: int)
    requires
        0 <= i <= s.len(),
    ensures
        i <= space_from(s, i) <= s.len(),
        space_from(s, i) < s.len() ==> s[space_from(s, i)] == ' ',
    decreases s.len() - i,
{
    if i < s.len() && s[i] != ' ' {
        lemma_space_from_bounds(s, i + 1);
    }
}

fn find_space(s: &str, start: usize) -> (r: usize)
    requires
        start <= s@.len(),
    ensures
        r == space_from(s@, start as int),
{
    let len = s.unicode_len();
    let mut i = start;
    while i < len && s.get_char(i) != ' '
        invariant
            start <= i <= len,
            len == s@.len(),
            space_from(s@, start as int) == space_from(s@, i as int),
        decreases len - i,
    {
        i = i + 1;
    }
    i
}

/// The driver's last name: the second space-separated token of the full
/// name, or `None` when the name holds no space.
pub fn last_name(name: &str) -> (r: Option<String>)
    ensures
        r matches Some(t) ==> second_token(name@) == Some(t@),
        r is None ==> second_token(name@) is None,
{
    let len = name.unicode_len();
    let a = find_space(name, 0);
    if a >= len {
        None
    } else {
        proof {
            lemma_space_from_bounds(name@, 0);
            lemma_space_from_bounds(name@, a + 1);
        }
        let b = find_space(name, a + 1);
        let token = name.substring_char(a + 1, b);
        Some(String::from_str(token))
    }
}

/// The label of a suggested gear: a gear below one means there is no
/// suggestion.
pub open spec fn gear_label(gear: i8) -> Seq<char> {
    if gear < 1 {
        "[N/A]"@
    } else {
        decimal(gear as nat)
    }
}

/// Renders a suggested gear for display.
pub fn suggested_gear_label(gear: i8) -> (r: String)
    ensures
        r@ == gear_label(gear),
{
    if gear < 1 {
        String::from_str("[N/A]")
    } else {
        decimal_string(gear as u64)
    }
}

} // verus!
