use vstd::prelude::*;

verus! {

/// The decimal digit `d` (0 to 9) as a character.
pub open spec fn digit_char(d: int) -> char {
    seq!['0', '1', '2', '3', '4', '5', '6', '7', '8', '9'][d]
}

/// The decimal digits of `n`, most significant first, with no leading zeros.
pub open spec fn decimal(n: nat) -> Seq<char>
    decreases n,
{
    if n < 10 {
        seq![digit_char(n as int)]
    } else {
        decimal(n / 10).push(digit_char((n % 10) as int))
    }
}

/// `n` in decimal, zero-padded to at least two digits.
pub open spec fn zero_padded2(n: nat) -> Seq<char> {
    if n < 10 {
        seq!['0'] + decimal(n)
    } else {
        decimal(n)
    }
}

/// `n` in decimal with a leading minus sign where negative.
pub open spec fn signed_decimal(n: int) -> Seq<char> {
    if n < 0 {
        seq!['-'] + decimal((-n) as nat)
    } else {
        decimal(n as nat)
    }
}

/// `s` right-aligned in a field of four characters, padded with spaces.
pub open spec fn space_padded4(s: Seq<char>) -> Seq<char> {
    if s.len() < 4 {
        Seq::new((4 - s.len()) as nat, |i: int| ' ') + s
    } else {
        s
    }
}

/// The short English name of a day of the week counted from Monday (0).
pub open spec fn weekday_name(w: int) -> Seq<char> {
    seq![
        seq!['M', 'o', 'n'],
        seq!['T', 'u', 'e'],
        seq!['W', 'e', 'd'],
        seq!['T', 'h', 'u'],
        seq!['F', 'r', 'i'],
        seq!['S', 'a', 't'],
        seq!['S', 'u', 'n'],
    ][w]
}

/// The date line: weekday, then day and month zero-padded, then the year in a
/// field of four, as in `Fri, 05/09/2025`.
pub open spec fn date_line_spec(weekday: int, day: nat, month: nat, year: int) -> Seq<char> {
    weekday_name(weekday) + seq![',', ' '] + zero_padded2(day) + seq!['/'] + zero_padded2(month)
        + seq!['/'] + space_padded4(signed_decimal(year))
}

/// The time line: hour and minute, zero-padded, joined by a colon.
pub open spec fn clock_line_spec(hour: nat, minute: nat) -> Seq<char> {
    zero_padded2(hour) + seq![':'] + zero_padded2(minute)
}

fn digit(d: u32) -> (c: char)
    requires
        d < 10,
    ensures
        c == digit_char(d as int),
{
    if d == 0 {
        '0'
    } else if d == 1 {
        '1'
    } else if d == 2 {
        '2'
    } else if d == 3 {
        '3'
    } else if d == 4 {
        '4'
    } else if d == 5 {
        '5'
    } else if d == 6 {
        '6'
    } else if d == 7 {
        '7'
    } else if d == 8 {
        '8'
    } else {
        '9'
    }
}

fn push_decimal(out: &mut Vec<char>, n: u32)
    ensures
        final(out)@ == old(out)@ + decimal(n as nat),
    decreases n,
{
    if n >= 10 {
        push_decimal(out, n / 10);
    }
    out.push(digit(n % 10));
    assert(final(out)@ =~= old(out)@ + decimal(n as nat));
}

fn push_zero_padded2(out: &mut Vec<char>, n: u32)
    ensures
        final(out)@ == old(out)@ + zero_padded2(n as nat),
{
    if n < 10 {
        out.push('0');
    }
    push_decimal(out, n);
    assert(final(out)@ =~= old(out)@ + zero_padded2(n as nat));
}

fn push_str(out: &mut Vec<char>, s: &[char])
    ensures
        final(out)@ == old(out)@ + s@,
{
    let mut i: usize = 0;
    while i < s.len()
        invariant
            i <= s@.len(),
            out@ == old(out)@ + s@.subrange(0, i as int),
        decreases s@.len() - i,
    {
        out.push(s[i]);
        i = i + 1;
        assert(out@ =~= old(out)@ + s@.subrange(0, i as int));
    }
    assert(s@.subrange(0, s@.len() as int) =~= s@);
}

/// The date line for a day of the week (0 for Monday to 6 for Sunday), a day, a
/// month and a year.
pub fn date_line(weekday: u32, day: u32, month: u32, year: i32) -> (r: Vec<char>)
    requires
        weekday < 7,
    ensures
        r@ == date_line_spec(weekday as int, day as nat, month as nat, year as int),
{
    let mut out: Vec<char> = Vec::new();
    let names: [[char; 3]; 7] = [
        ['M', 'o', 'n'],
        ['T', 'u', 'e'],
        ['W', 'e', 'd'],
        ['T', 'h', 'u'],
        ['F', 'r', 'i'],
        ['S', 'a', 't'],
        ['S', 'u', 'n'],
    ];
    let name: [char; 3] = names[weekday as usize];
    assert(name@ == weekday_name(weekday as int));
    push_str(&mut out, name.as_slice());
    push_str(&mut out, [',', ' '].as_slice());
    push_zero_padded2(&mut out, day);
    push_str(&mut out, ['/'].as_slice());
    push_zero_padded2(&mut out, month);
    push_str(&mut out, ['/'].as_slice());
    let mut year_text: Vec<char> = Vec::new();
    if year < 0 {
        year_text.push('-');
        push_decimal(&mut year_text, (-(year as i64)) as u32);
    } else {
        push_decimal(&mut year_text, year as u32);
    }
    assert(year_text@ =~= signed_decimal(year as int));
    let ylen: usize = year_text.len();
    let ghost prefix = out@;
    let mut k: usize = 0;
    while ylen + k < 4
        invariant
            ylen == year_text@.len(),
            ylen + k <= 4 || k == 0,
            out@ == prefix + Seq::new(k as nat, |i: int| ' '),
        decreases 4 - ylen - k,
    {
        out.push(' ');
        k = k + 1;
        assert(out@ =~= prefix + Seq::new(k as nat, |i: int| ' '));
    }
    assert(prefix + space_padded4(year_text@) =~= out@ + year_text@);
    push_str(&mut out, year_text.as_slice());
    out
}

/// Numbers below one hundred take exactly two characters when zero-padded.
pub proof fn lemma_zero_padded2_len(n: nat)
    requires
        n < 100,
    ensures
        zero_padded2(n).len() == 2,
{
    if n >= 10 {
        assert(decimal(n / 10).len() == 1);
    }
}

/// The time line for an hour and a minute.
pub fn clock_line(hour: u32, minute: u32) -> (r: Vec<char>)
    ensures
        r@ == clock_line_spec(hour as nat, minute as nat),
        hour < 100 && minute < 100 ==> r@.len() == 5,
{
    let mut out: Vec<char> = Vec::new();
    push_zero_padded2(&mut out, hour);
    out.push(':');
    push_zero_padded2(&mut out, minute);
    assert(out@ =~= clock_line_spec(hour as nat, minute as nat));
    proof {
        if hour < 100 && minute < 100 {
            lemma_zero_padded2_len(hour as nat);
            lemma_zero_padded2_len(minute as nat);
        }
    }
    out
}

} // verus!
