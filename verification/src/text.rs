//! Decimal and clock formatting of the numbers the player shows.
use vstd::prelude::*;

verus! {

/// The character of a decimal digit.
pub open spec fn digit_char(d: nat) -> char {
    (d + 48) as char
}

/// The decimal notation of `n`, without leading zeros.
pub open spec fn decimal(n: nat) -> Seq<char>
    decreases n,
{
    if n < 10 {
        seq![digit_char(n)]
    } else {
        decimal(n / 10).push(digit_char(n % 10))
    }
}

/// The decimal notation of `n`, padded with a zero to at least two digits.
pub open spec fn two_digits(n: nat) -> Seq<char> {
    if n < 10 {
        seq!['0', digit_char(n)]
    } else {
        decimal(n)
    }
}

/// `mm:ss` for a count of whole seconds: minutes are not wrapped into hours.
pub open spec fn clock_text(secs: nat) -> Seq<char> {
    two_digits(secs / 60) + seq![':'] + two_digits(secs % 60)
}

/// Whether every character is a decimal digit.
pub open spec fn all_digits(s: Seq<char>) -> bool {
    forall|i: int| 0 <= i < s.len() ==> '0' <= #[trigger] s[i] && s[i] <= '9'
}

/// The number that a string of decimal digits stands for.
pub open spec fn digits_value(s: Seq<char>) -> int
    decreases s.len(),
{
    if s.len() == 0 {
        0
    } else {
        digits_value(s.drop_last()) * 10 + (s.last() as int - 48)
    }
}

proof fn lemma_digit_char(d: nat)
    requires
        d < 10,
    ensures
        digit_char(d) as int == d + 48,
        '0' <= digit_char(d) && digit_char(d) <= '9',
        d > 0 ==> digit_char(d) != '0',
{
    assert((d + 48) as char as int == d + 48);
}

proof fn lemma_value_of_one(c: char)
    ensures
        digits_value(seq![c]) == c as int - 48,
{
    assert(seq![c].drop_last() =~= Seq::<char>::empty());
    assert(digits_value(Seq::<char>::empty()) == 0);
}

/// The decimal notation of `n` is a non-empty string of digits that stands
/// for `n`, with no leading zero unless it is the single digit of zero.
pub proof fn decimal_reads_back(n: nat)
    ensures
        decimal(n).len() >= 1,
        all_digits(decimal(n)),
        digits_value(decimal(n)) == n,
        decimal(n).len() > 1 ==> decimal(n)[0] != '0',
        n == 0 ==> decimal(n) == seq!['0'],
    decreases n,
{
    if n < 10 {
        lemma_digit_char(n);
        lemma_value_of_one(digit_char(n));
    } else {
        decimal_reads_back(n / 10);
        let d: nat = n % 10;
        lemma_digit_char(d);
        let prefix = decimal(n / 10);
        assert(decimal(n) == prefix.push(digit_char(d)));
        assert(decimal(n).drop_last() =~= prefix);
        assert(decimal(n)[0] == prefix[0]);
        if n / 10 < 10 {
            lemma_digit_char(n / 10);
            assert(prefix == seq![digit_char(n / 10)]);
        } else {
            decimal_reads_back(n / 100);
            assert(prefix == decimal(n / 10 / 10).push(digit_char(n / 10 % 10)));
        }
    }
}

/// A two-digit field stands for `n`, has at least two digits, and only pads
/// with a zero to reach two.
pub proof fn two_digits_reads_back(n: nat)
    ensures
        two_digits(n).len() >= 2,
        all_digits(two_digits(n)),
        digits_value(two_digits(n)) == n,
        two_digits(n).len() > 2 ==> two_digits(n)[0] != '0',
        n < 100 ==> two_digits(n).len() == 2,
{
    decimal_reads_back(n);
    if n < 10 {
        lemma_digit_char(n);
        let t = two_digits(n);
        assert(t == seq!['0', digit_char(n)]);
        assert(t.drop_last() =~= seq!['0']);
        lemma_value_of_one('0');
    } else if n < 100 {
        decimal_reads_back(n / 10);
        lemma_digit_char(n / 10);
        assert(decimal(n / 10) == seq![digit_char(n / 10)]);
    }
}

/// `mm:ss` reads back: the text is a minutes field and a seconds field around
/// one colon; the seconds field has exactly two digits and stands for
/// `secs % 60`, the minutes field has at least two and stands for `secs / 60`.
pub proof fn clock_text_reads_back(secs: nat)
    ensures
        clock_text(secs).len() >= 5,
        clock_text(secs)[clock_text(secs).len() - 3] == ':',
        clock_text(secs).subrange(clock_text(secs).len() - 2, clock_text(secs).len() as int)
            == two_digits(secs % 60),
        two_digits(secs % 60).len() == 2,
        digits_value(two_digits(secs % 60)) == secs % 60,
        all_digits(two_digits(secs % 60)),
        clock_text(secs).subrange(0, clock_text(secs).len() - 3) == two_digits(secs / 60),
        digits_value(two_digits(secs / 60)) == secs / 60,
        all_digits(two_digits(secs / 60)),
        two_digits(secs / 60).len() >= 2,
{
    two_digits_reads_back(secs % 60);
    two_digits_reads_back(secs / 60);
    let m = two_digits(secs / 60);
    let t = clock_text(secs);
    assert(t.subrange(t.len() - 2, t.len() as int) =~= two_digits(secs % 60));
    assert(t.subrange(0, t.len() - 3) =~= m);
}

/// `String::push`: appends one character at the end of the string.
#[verifier::external_body]
pub(crate) fn push_char(s: &mut String, c: char)
    ensures
        final(s)@ == old(s)@.push(c),
{
    s.push(c);
}

/// The character of the digit `d`.
fn digit(d: u8) -> (c: char)
    requires
        d < 10,
    ensures
        c == digit_char(d as nat),
{
    (d + 48) as char
}

/// Appends the decimal notation of `n`.
pub(crate) fn push_decimal(s: &mut String, n: u128)
    ensures
        final(s)@ == old(s)@ + decimal(n as nat),
    decreases n,
{
    if n >= 10 {
        push_decimal(s, n / 10);
    }
    let d: u8 = (n % 10) as u8;
    push_char(s, digit(d));
    assert(final(s)@ == old(s)@ + decimal(n as nat)) by {
        if n >= 10 {
            assert(decimal(n as nat) == decimal((n / 10) as nat).push(digit_char((n % 10) as nat)));
        }
    }
}

/// Appends `n` with at least two digits.
fn push_two_digits(s: &mut String, n: u64)
    ensures
        final(s)@ == old(s)@ + two_digits(n as nat),
{
    if n < 10 {
        push_char(s, '0');
    }
    push_decimal(s, n as u128);
    assert(final(s)@ =~= old(s)@ + two_digits(n as nat));
}

/// Formats a count of whole seconds as `mm:ss`; 65 gives `01:05` and 3600 gives `60:00`.
pub fn format_time(total_secs: u64) -> (text: String)
    ensures
        text@ == clock_text(total_secs as nat),
{
    let minutes: u64 = total_secs / 60;
    let seconds: u64 = total_secs % 60;
    let mut text = String::new();
    push_two_digits(&mut text, minutes);
    push_char(&mut text, ':');
    push_two_digits(&mut text, seconds);
    assert(text@ =~= clock_text(total_secs as nat));
    text
}

} // verus!
