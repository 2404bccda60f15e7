//! The timestamp that prefixes every log line: `[seconds.milliseconds]`,
//! counted from the Unix epoch, with the milliseconds written in three digits.

use std::time::Duration;
use std::time::SystemTime;
use std::time::SystemTimeError;

use vstd::prelude::*;

use crate::text::{decimal_digit, digit_char, digit_value, lemma_digit_reads_back, string_push};

verus! {

/// The decimal digits of `n`, most significant first, without leading zeros.
pub open spec fn decimal(n: nat) -> Seq<char>
    decreases n,
{
    if n < 10 {
        seq![decimal_digit(n as int)]
    } else {
        decimal(n / 10).push(decimal_digit((n % 10) as int))
    }
}

/// `n` in decimal, padded on the left with zeros to at least three digits.
pub open spec fn zero_padded3(n: nat) -> Seq<char> {
    if n < 10 {
        seq!['0', '0'] + decimal(n)
    } else if n < 100 {
        seq!['0'] + decimal(n)
    } else {
        decimal(n)
    }
}

/// The text of a timestamp: `[`, the seconds, `.`, the milliseconds padded to
/// three digits, `]`.
pub open spec fn timestamp_text(secs: nat, millis: nat) -> Seq<char> {
    seq!['['] + decimal(secs) + seq!['.'] + zero_padded3(millis) + seq![']']
}

/// The number that a string of decimal digits denotes.
pub open spec fn decimal_value(s: Seq<char>) -> int
    decreases s.len(),
{
    if s.len() == 0 {
        0
    } else {
        decimal_value(s.drop_last()) * 10 + digit_value(s.last())
    }
}

/// Appends the decimal digits of `n` to `s`.
fn push_decimal(s: &mut String, n: u64)
    ensures
        final(s)@ == old(s)@ + decimal(n as nat),
    decreases n,
{
    if n >= 10 {
        push_decimal(s, n / 10);
    }
    let c = digit_char((n % 10) as u8);
    string_push(s, c);
    proof {
        if n >= 10 {
            assert(decimal(n as nat) == decimal((n / 10) as nat).push(decimal_digit((n % 10) as int)));
        }
    }
    assert(final(s)@ =~= old(s)@ + decimal(n as nat)) by {
        if n < 10 {
            assert(decimal(n as nat) =~= seq![decimal_digit(n as int)]);
        }
    }
}

/// Formats a reading of the clock as `[secs.mmm]`.
pub fn format_timestamp(secs: u64, millis: u32) -> (r: String)
    ensures
        r@ == timestamp_text(secs as nat, millis as nat),
{
    let mut s = String::new();
    string_push(&mut s, '[');
    push_decimal(&mut s, secs);
    string_push(&mut s, '.');
    if millis < 10 {
        string_push(&mut s, '0');
        string_push(&mut s, '0');
    } else if millis < 100 {
        string_push(&mut s, '0');
    }
    push_decimal(&mut s, millis as u64);
    string_push(&mut s, ']');
    assert(s@ =~= timestamp_text(secs as nat, millis as nat));
    s
}

/// Declares std's `SystemTime` to Verus; values of it are carried, not read.
#[verifier::external_type_specification]
#[verifier::external_body]
pub struct ExSystemTime(SystemTime);

/// Declares std's `SystemTimeError` to Verus.
#[verifier::external_type_specification]
#[verifier::external_body]
pub struct ExSystemTimeError(SystemTimeError);

/// Reads the system clock (`SystemTime::now` of std).
///
/// Trusted, and nothing is stated of the result: it is the time of the call.
#[verifier::external_body]
fn system_time_now() -> (t: SystemTime) {
    SystemTime::now()
}

/// How long after the Unix epoch `t` lies (`SystemTime::duration_since` of
/// std, with `UNIX_EPOCH` as the earlier time).
///
/// Trusted, and nothing is stated of the result: std returns an error when the
/// epoch is later than `t`, which depends on the clock.
#[verifier::external_body]
fn duration_since_unix_epoch(t: &SystemTime) -> (r: Result<Duration, SystemTimeError>) {
    t.duration_since(std::time::UNIX_EPOCH)
}

/// What `Duration::as_secs` of std returns for `d`: its whole seconds.
pub uninterp spec fn secs_of(d: Duration) -> u64;

/// What `Duration::subsec_millis` of std returns for `d`: the fractional part
/// of its last second in whole milliseconds.
pub uninterp spec fn subsec_millis_of(d: Duration) -> u32;

/// The whole seconds of a duration (`Duration::as_secs` of std).
///
/// Trusted: the result is `secs_of` of the duration, a function of the
/// duration alone.
#[verifier::external_body]
fn duration_as_secs(d: &Duration) -> (secs: u64)
    ensures
        secs == secs_of(*d),
{
    d.as_secs()
}

/// The fractional part of a duration in whole milliseconds
/// (`Duration::subsec_millis` of std).
///
/// Trusted: the result is `subsec_millis_of` of the duration, and std
/// documents that it is a fractional part of a second, less than one thousand.
#[verifier::external_body]
fn duration_subsec_millis(d: &Duration) -> (millis: u32)
    ensures
        millis == subsec_millis_of(*d),
        millis < 1000,
{
    d.subsec_millis()
}

/// The text of a clock reading: the whole seconds and milliseconds since the
/// Unix epoch, or `None` for a clock set before the epoch, which reads as zero.
pub open spec fn reading_text(reading: Option<(u64, u32)>) -> Seq<char> {
    match reading {
        Some((secs, millis)) => timestamp_text(secs as nat, millis as nat),
        None => timestamp_text(0, 0),
    }
}

/// Formats a clock reading as `[secs.mmm]`; a clock before the Unix epoch
/// (`None`) gives `[0.000]`.
pub fn format_reading(reading: Option<(u64, u32)>) -> (r: String)
    ensures
        r@ == reading_text(reading),
{
    match reading {
        Some((secs, millis)) => format_timestamp(secs, millis),
        None => format_timestamp(0, 0),
    }
}

/// The reading of a duration since the Unix epoch: its whole seconds and the
/// milliseconds of its last second.
pub open spec fn duration_reading(d: Duration) -> Option<(u64, u32)> {
    Some((secs_of(d), subsec_millis_of(d)))
}

/// The current time as a log prefix `[secs.mmm]`, counted from the Unix
/// epoch; a clock set before the epoch reads as zero. Which of the two, and
/// which duration, rests on the clock at the time of the call.
pub fn timestamp() -> (r: String)
    ensures
        r@ == reading_text(None) || exists|d: Duration|
            subsec_millis_of(d) < 1000 && r@ == #[trigger] reading_text(duration_reading(d)),
{
    let now = system_time_now();
    match duration_since_unix_epoch(&now) {
        Ok(d) => {
            let reading = Some((duration_as_secs(&d), duration_subsec_millis(&d)));
            let r = format_reading(reading);
            assert(r@ == reading_text(duration_reading(d)));
            r
        },
        Err(_) => format_reading(None),
    }
}

/// The digits of `n` are at least one, and read back as `n`.
proof fn lemma_decimal_reads_back(n: nat)
    ensures
        decimal(n).len() >= 1,
        decimal_value(decimal(n)) == n,
    decreases n,
{
    lemma_digit_reads_back((n % 10) as int);
    if n < 10 {
        let d = decimal(n);
        assert(d.drop_last() =~= Seq::<char>::empty());
        assert(decimal_value(d.drop_last()) == 0);
        assert(d.last() == decimal_digit(n as int));
    } else {
        lemma_decimal_reads_back(n / 10);
        let d = decimal(n);
        assert(d.drop_last() =~= decimal(n / 10));
        assert(d.last() == decimal_digit((n % 10) as int));
    }
}

/// The padded milliseconds of a reading below one thousand are three digits
/// that read back as the milliseconds.
proof fn lemma_padded_reads_back(m: nat)
    requires
        m < 1000,
    ensures
        zero_padded3(m).len() == 3,
        decimal_value(zero_padded3(m)) == m,
{
    let p = zero_padded3(m);
    lemma_digit_reads_back((m % 10) as int);
    lemma_digit_reads_back((m / 10 % 10) as int);
    assert(digit_value('0') == 0);
    if m < 10 {
        assert(decimal(m) =~= seq![decimal_digit(m as int)]);
        let p2 = p.drop_last();
        let p1 = p2.drop_last();
        let p0 = p1.drop_last();
        assert(p2 =~= seq!['0', '0']);
        assert(p1 =~= seq!['0']);
        assert(p0 =~= Seq::<char>::empty());
        assert(decimal_value(p0) == 0);
        assert(decimal_value(p1) == 0);
        assert(decimal_value(p2) == 0);
        assert(p.last() == decimal_digit(m as int));
    } else if m < 100 {
        assert(decimal(m / 10) =~= seq![decimal_digit((m / 10) as int)]);
        assert(decimal(m) =~= seq![decimal_digit((m / 10) as int), decimal_digit((m % 10) as int)]);
        let p2 = p.drop_last();
        let p1 = p2.drop_last();
        let p0 = p1.drop_last();
        assert(p2 =~= seq!['0', decimal_digit((m / 10) as int)]);
        assert(p1 =~= seq!['0']);
        assert(p0 =~= Seq::<char>::empty());
        assert(decimal_value(p0) == 0);
        assert(decimal_value(p1) == 0);
        assert(p2.last() == decimal_digit((m / 10) as int));
        assert(decimal_value(p2) == m / 10);
        assert(p.last() == decimal_digit((m % 10) as int));
    } else {
        assert(decimal(m / 100) =~= seq![decimal_digit((m / 100) as int)]);
        assert(decimal(m / 10).len() == 2);
        lemma_decimal_reads_back(m);
    }
}

/// A log timestamp shows its reading exactly: two readings whose milliseconds
/// are below one thousand give the same text only when their seconds and
/// their milliseconds are equal.
pub proof fn law_timestamp_text_is_unambiguous(s1: nat, m1: nat, s2: nat, m2: nat)
    requires
        m1 < 1000,
        m2 < 1000,
        timestamp_text(s1, m1) == timestamp_text(s2, m2),
    ensures
        s1 == s2,
        m1 == m2,
{
    let t1 = timestamp_text(s1, m1);
    let t2 = timestamp_text(s2, m2);
    lemma_padded_reads_back(m1);
    lemma_padded_reads_back(m2);
    lemma_decimal_reads_back(s1);
    lemma_decimal_reads_back(s2);
    let l1: int = decimal(s1).len() as int;
    let l2: int = decimal(s2).len() as int;
    assert(t1.len() == l1 + 6);
    assert(t2.len() == l2 + 6);
    assert(l1 == l2);
    assert(t1.subrange(1, l1 + 1) =~= decimal(s1));
    assert(t2.subrange(1, l2 + 1) =~= decimal(s2));
    assert(t1.subrange(l1 + 2, l1 + 5) =~= zero_padded3(m1));
    assert(t2.subrange(l2 + 2, l2 + 5) =~= zero_padded3(m2));
}

} // verus!
