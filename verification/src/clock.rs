//! Clock text for the progress gauge: whole seconds shown as `MM:SS`.
use std::time::Duration;
use vstd::prelude::*;

verus! {

/// The decimal digit character for `d` (meaningful for `d < 10`).
pub open spec fn digit_char(d: nat) -> char {
    if d == 0 {
        '0'
    } else if d == 1 {
        '1'
    } else if d == 2 {
        '2'
    } else if d == 3 {
        '3'
    } else if d == 4 {
        '4'
    } else if d == 5 {
        '5'
    } else if d == 6 {
        '6'
    } else if d == 7 {
        '7'
    } else if d == 8 {
        '8'
    } else {
        '9'
    }
}

/// Whether `c` is one of the ten decimal digit characters.
pub open spec fn is_digit(c: char) -> bool {
    exists|d: nat| d < 10 && digit_char(d) == c
}

/// The value of a decimal digit character.
pub open spec fn digit_value(c: char) -> nat {
    if c == '1' {
        1
    } else if c == '2' {
        2
    } else if c == '3' {
        3
    } else if c == '4' {
        4
    } else if c == '5' {
        5
    } else if c == '6' {
        6
    } else if c == '7' {
        7
    } else if c == '8' {
        8
    } else if c == '9' {
        9
    } else {
        0
    }
}

/// The shortest decimal rendering of `n`.
pub open spec fn decimal(n: nat) -> Seq<char>
    decreases n,
{
    if n < 10 {
        seq![digit_char(n)]
    } else {
        decimal(n / 10) + seq![digit_char(n % 10)]
    }
}

/// Decimal rendering padded with zeros to at least two characters (`{:02}`).
pub open spec fn two_digits(n: nat) -> Seq<char> {
    if n < 10 {
        seq!['0', digit_char(n)]
    } else {
        decimal(n)
    }
}

/// `secs` whole seconds shown as minutes and seconds, `MM:SS`.
pub open spec fn clock_view(secs: nat) -> Seq<char> {
    two_digits(secs / 60) + seq![':'] + two_digits(secs % 60)
}

/// The number that a string of decimal digits stands for.
pub open spec fn digits_value(s: Seq<char>) -> nat
    decreases s.len(),
{
    if s.len() == 0 {
        0
    } else {
        digits_value(s.drop_last()) * 10 + digit_value(s.last())
    }
}

/// A digit character reads back as the digit it was made from.
pub proof fn lemma_digit_reads_back(d: nat)
    requires
        d < 10,
    ensures
        digit_value(digit_char(d)) == d,
        is_digit(digit_char(d)),
        digit_char(d) as int == '0' as int + d,
{
}

/// Every character of `decimal(n)` is a digit, and the digits read back as `n`.
proof fn lemma_decimal_reads_back(n: nat)
    ensures
        decimal(n).len() >= 1,
        forall|i: int| 0 <= i < decimal(n).len() ==> is_digit(#[trigger] decimal(n)[i]),
        digits_value(decimal(n)) == n,
    decreases n,
{
    if n < 10 {
        lemma_digit_reads_back(n);
        let t = decimal(n);
        assert(t.drop_last() =~= Seq::<char>::empty());
        assert(digits_value(Seq::<char>::empty()) == 0);
        assert(digits_value(t) == digits_value(t.drop_last()) * 10 + digit_value(t.last()));
    } else {
        lemma_decimal_reads_back(n / 10);
        let head = decimal(n / 10);
        lemma_digit_reads_back(n % 10);
        assert(decimal(n).drop_last() =~= head);
        vstd::arithmetic::div_mod::lemma_fundamental_div_mod(n as int, 10);
    }
}

/// `two_digits(n)` has at least two characters, all digits, and reads back as `n`;
/// below one hundred it has exactly two.
proof fn lemma_two_digits_read_back(n: nat)
    ensures
        two_digits(n).len() >= 2,
        n < 100 ==> two_digits(n).len() == 2,
        forall|i: int| 0 <= i < two_digits(n).len() ==> is_digit(#[trigger] two_digits(n)[i]),
        digits_value(two_digits(n)) == n,
{
    if n < 10 {
        let t = two_digits(n);
        lemma_digit_reads_back(n);
        lemma_digit_reads_back(0);
        assert(t.drop_last() =~= seq!['0']);
        assert(seq!['0'].drop_last() =~= Seq::<char>::empty());
        assert(digits_value(Seq::<char>::empty()) == 0);
        assert(digits_value(seq!['0']) == digits_value(seq!['0'].drop_last()) * 10 + digit_value('0'));
        assert(digits_value(t) == digits_value(t.drop_last()) * 10 + digit_value(t.last()));
    } else {
        lemma_decimal_reads_back(n);
        assert(decimal(n / 10).len() >= 1) by {
            lemma_decimal_reads_back(n / 10);
        }
        if n < 100 {
            assert(n / 10 < 10);
        }
    }
}

/// The clock text is lossless: it is minutes, a colon and exactly two digits of
/// seconds below sixty, and the minutes times sixty plus the seconds give back
/// the whole seconds it was made from.
pub proof fn lemma_clock_reads_back(secs: nat)
    ensures
        ({
            let t = clock_view(secs);
            let minutes = t.take(t.len() - 3);
            let seconds = t.skip(t.len() - 2);
            &&& t.len() >= 5
            &&& t[t.len() - 3] == ':'
            &&& forall|i: int| 0 <= i < minutes.len() ==> is_digit(#[trigger] minutes[i])
            &&& forall|i: int| 0 <= i < seconds.len() ==> is_digit(#[trigger] seconds[i])
            &&& seconds.len() == 2
            &&& digits_value(seconds) < 60
            &&& digits_value(minutes) * 60 + digits_value(seconds) == secs
        }),
{
    let t = clock_view(secs);
    let m = secs / 60;
    let s = secs % 60;
    lemma_two_digits_read_back(m);
    lemma_two_digits_read_back(s);
    vstd::arithmetic::div_mod::lemma_fundamental_div_mod(secs as int, 60);
    assert(t.take(t.len() - 3) =~= two_digits(m));
    assert(t.skip(t.len() - 2) =~= two_digits(s));
}

/// Whole seconds contained in a duration, as `Duration::as_secs` reports them.
pub uninterp spec fn duration_secs(d: Duration) -> u64;

/// Gives `Duration::as_secs` the contract that its result is named `duration_secs`.
pub assume_specification[ core::time::Duration::as_secs ](d: &Duration) -> (secs: u64)
    ensures
        secs == duration_secs(*d),
;

/// The whole seconds of `d`, `d.as_secs()`.
fn whole_secs(d: &Duration) -> (secs: u64)
    ensures
        secs == duration_secs(*d),
{
    d.as_secs()
}

/// A one-character string holding the digit `d`.
fn digit_str(d: u64) -> (s: &'static str)
    requires
        d < 10,
    ensures
        s@ == seq![digit_char(d as nat)],
{
    if d == 0 {
        proof { reveal_strlit("0"); }
        "0"
    } else if d == 1 {
        proof { reveal_strlit("1"); }
        "1"
    } else if d == 2 {
        proof { reveal_strlit("2"); }
        "2"
    } else if d == 3 {
        proof { reveal_strlit("3"); }
        "3"
    } else if d == 4 {
        proof { reveal_strlit("4"); }
        "4"
    } else if d == 5 {
        proof { reveal_strlit("5"); }
        "5"
    } else if d == 6 {
        proof { reveal_strlit("6"); }
        "6"
    } else if d == 7 {
        proof { reveal_strlit("7"); }
        "7"
    } else if d == 8 {
        proof { reveal_strlit("8"); }
        "8"
    } else {
        proof { reveal_strlit("9"); }
        "9"
    }
}

/// Appends the decimal rendering of `n` to `out`.
fn append_decimal(out: &mut String, n: u64)
    ensures
        final(out)@ == old(out)@ + decimal(n as nat),
    decreases n,
{
    if n >= 10 {
        append_decimal(out, n / 10);
    }
    out.append(digit_str(n % 10));
    assert(out@ =~= old(out)@ + decimal(n as nat));
}

/// Appends `n` padded with zeros to two characters at least.
fn append_two_digits(out: &mut String, n: u64)
    ensures
        final(out)@ == old(out)@ + two_digits(n as nat),
{
    if n < 10 {
        proof { reveal_strlit("0"); }
        out.append("0");
        append_decimal(out, n);
        assert(out@ =~= old(out)@ + two_digits(n as nat));
    } else {
        append_decimal(out, n);
    }
}

/// Renders whole seconds as `MM:SS` (minutes keep every digit past two).
pub fn clock_text(secs: u64) -> (text: String)
    ensures
        text@ == clock_view(secs as nat),
{
    let mut text = String::new();
    append_two_digits(&mut text, secs / 60);
    proof { reveal_strlit(":"); }
    text.append(":");
    append_two_digits(&mut text, secs % 60);
    assert(text@ =~= clock_view(secs as nat));
    text
}

/// Formats a duration as `MM:SS` from its whole seconds.
pub fn fmt_time(d: Duration) -> (text: String)
    ensures
        text@ == clock_view(duration_secs(d) as nat),
{
    let secs = whole_secs(&d);
    clock_text(secs)
}

/// The progress gauge's label: position and length of the track, `MM:SS / MM:SS`.
pub fn progress_label(pos: Duration, dur: Duration) -> (label: String)
    ensures
        label@ == clock_view(duration_secs(pos) as nat) + " / "@ + clock_view(
            duration_secs(dur) as nat,
        ),
{
    let mut label = fmt_time(pos);
    label.append(" / ");
    let total = fmt_time(dur);
    label.append(total.as_str());
    label
}

} // verus!
