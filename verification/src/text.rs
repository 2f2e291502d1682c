//! The texts that the player's footer shows: the playback position against
//! the track's length, and a line of facts about the audio stream.

use vstd::prelude::*;

verus! {

/// The decimal digit character for a digit value below ten.
pub open spec fn digit_char(d: nat) -> char
    recommends
        d < 10,
{
    (d + 48) as char
}

/// The shortest decimal representation of `n`, most significant digit first.
pub open spec fn decimal(n: nat) -> Seq<char>
    decreases n,
{
    if n < 10 {
        seq![digit_char(n)]
    } else {
        decimal(n / 10).push(digit_char(n % 10))
    }
}

/// `n` in decimal, padded with zeros on the left to at least two characters
/// (what `{:02}` prints).
pub open spec fn two_digits(n: nat) -> Seq<char> {
    if n < 10 {
        seq!['0', digit_char(n)]
    } else {
        decimal(n)
    }
}

/// A number of whole seconds as `minutes:seconds`, each part at least two
/// digits wide; minutes are not wrapped into hours.
pub open spec fn time_text(seconds: nat) -> Seq<char> {
    two_digits(seconds / 60) + seq![':'] + two_digits(seconds % 60)
}

/// `position / duration`, both as [`time_text`].
pub open spec fn time_pair_text(position: nat, duration: nat) -> Seq<char> {
    time_text(position) + seq![' ', '/', ' '] + time_text(duration)
}

/// Appends one character to a string.
#[verifier::external_body]
fn push_char(s: &mut String, c: char)
    ensures
        final(s)@ == old(s)@.push(c),
{
    s.push(c);
}

fn digit(d: u64) -> (c: char)
    requires
        d < 10,
    ensures
        c == digit_char(d as nat),
{
    let b: u8 = (d as u8) + 48;
    b as char
}

/// Appends `n` in decimal to `s`.
fn push_decimal(s: &mut String, n: u64)
    ensures
        final(s)@ == old(s)@ + decimal(n as nat),
    decreases n,
{
    if n >= 10 {
        push_decimal(s, n / 10);
        push_char(s, digit(n % 10));
        assert(s@ =~= old(s)@ + decimal(n as nat));
    } else {
        push_char(s, digit(n));
        assert(s@ =~= old(s)@ + decimal(n as nat));
    }
}

/// Appends `n` to `s` as `{:02}` prints it.
fn push_two_digits(s: &mut String, n: u64)
    ensures
        final(s)@ == old(s)@ + two_digits(n as nat),
{
    if n < 10 {
        push_char(s, '0');
        push_char(s, digit(n));
        assert(s@ =~= old(s)@ + two_digits(n as nat));
    } else {
        push_decimal(s, n);
    }
}

/// Appends [`time_text`] of `seconds` to `s`.
fn push_time(s: &mut String, seconds: u32)
    ensures
        final(s)@ == old(s)@ + time_text(seconds as nat),
{
    let minutes: u32 = seconds / 60;
    let secs: u32 = seconds % 60;
    push_two_digits(s, minutes as u64);
    push_char(s, ':');
    push_two_digits(s, secs as u64);
    assert(s@ =~= old(s)@ + time_text(seconds as nat));
}

/// Formats a whole number of seconds as `mm:ss`: minutes are `seconds / 60`,
/// seconds `seconds % 60`, each padded with zeros to two digits.
pub fn format_time(seconds: u32) -> (text: String)
    ensures
        text@ == time_text(seconds as nat),
        reads_as_time(text@, seconds as nat),
{
    let mut text = String::new();
    push_time(&mut text, seconds);
    assert(text@ =~= time_text(seconds as nat));
    proof {
        time_text_reads_back(seconds as nat);
    }
    text
}

/// Formats the playback position against the track's length,
/// `position / duration`, each as [`format_time`] does.
pub fn format_time_pair(position: u32, duration: u32) -> (text: String)
    ensures
        text@ == time_pair_text(position as nat, duration as nat),
        reads_as_time_pair(text@, position as nat, duration as nat),
{
    let mut text = String::new();
    push_time(&mut text, position);
    push_char(&mut text, ' ');
    push_char(&mut text, '/');
    push_char(&mut text, ' ');
    push_time(&mut text, duration);
    assert(text@ =~= time_pair_text(position as nat, duration as nat));
    proof {
        time_pair_reads_back(position as nat, duration as nat);
    }
    text
}

/// One piece of the stream facts line: the value followed by its suffix,
/// or nothing when the value is unknown.
pub open spec fn optional_part(value: Option<Seq<char>>, suffix: Seq<char>) -> Seq<char> {
    match value {
        Some(v) => v + suffix,
        None => Seq::empty(),
    }
}

/// A known number in decimal, or nothing.
pub open spec fn decimal_of(n: Option<u32>) -> Option<Seq<char>> {
    match n {
        Some(v) => Some(decimal(v as nat)),
        None => None,
    }
}

/// The line of facts about the audio stream: `<format> | `, `<n> bit | `,
/// `<n> hz | ` and `<n> cn`, in this order, each present only when known.
pub open spec fn stream_info_text(
    format_type: Option<Seq<char>>,
    bit_depth: Option<u32>,
    sample_rate: Option<u32>,
    channels: Option<u32>,
) -> Seq<char> {
    optional_part(format_type, " | "@)
        + optional_part(decimal_of(bit_depth), " bit | "@)
        + optional_part(decimal_of(sample_rate), " hz | "@)
        + optional_part(decimal_of(channels), " cn"@)
}

/// Appends `n` followed by `suffix` to `s` when `n` is known.
fn push_optional_number(s: &mut String, n: Option<u32>, suffix: &str)
    ensures
        final(s)@ == old(s)@ + optional_part(decimal_of(n), suffix@),
{
    match n {
        Some(v) => {
            push_decimal(s, v as u64);
            s.append(suffix);
            assert(s@ =~= old(s)@ + optional_part(decimal_of(n), suffix@));
        },
        None => {
            assert(s@ =~= old(s)@ + optional_part(decimal_of(n), suffix@));
        },
    }
}

/// Formats the line of facts about the audio stream shown in the footer:
/// the format's name followed by ` | `, the bit depth followed by ` bit | `,
/// the sample rate followed by ` hz | ` and the channel count followed by
/// ` cn`; each part is left out when its value is unknown.
pub fn format_stream_info(
    format_type: Option<&str>,
    bit_depth: Option<u32>,
    sample_rate: Option<u32>,
    channels: Option<u32>,
) -> (text: String)
    ensures
        text@ == stream_info_text(
            match format_type {
                Some(f) => Some(f@),
                None => None,
            },
            bit_depth,
            sample_rate,
            channels,
        ),
        reads_as_stream_info(
            text@,
            match format_type {
                Some(f) => Some(f@),
                None => None,
            },
            bit_depth,
            sample_rate,
            channels,
        ),
{
    let mut text = String::new();
    match format_type {
        Some(f) => {
            text.append(f);
            text.append(" | ");
        },
        None => {},
    }
    push_optional_number(&mut text, bit_depth, " bit | ");
    push_optional_number(&mut text, sample_rate, " hz | ");
    push_optional_number(&mut text, channels, " cn");
    let ghost ft = match format_type {
        Some(f) => Some(f@),
        None => None,
    };
    assert(text@ =~= stream_info_text(ft, bit_depth, sample_rate, channels));
    proof {
        stream_info_reads_back(ft, bit_depth, sample_rate, channels);
    }
    text
}

/// Whether `c` is one of the ten decimal digit characters.
pub open spec fn is_digit(c: char) -> bool {
    '0' <= c <= '9'
}

/// The number that a string of decimal digits denotes (0 for the empty string).
pub open spec fn digits_value(s: Seq<char>) -> int
    decreases s.len(),
{
    if s.len() == 0 {
        0
    } else {
        digits_value(s.drop_last()) * 10 + (s.last() as int - 48)
    }
}

proof fn lemma_decimal(n: nat)
    ensures
        decimal(n).len() >= 1,
        forall|i: int| 0 <= i < decimal(n).len() ==> is_digit(#[trigger] decimal(n)[i]),
        digits_value(decimal(n)) == n,
    decreases n,
{
    if n < 10 {
        assert(decimal(n).drop_last() =~= Seq::<char>::empty());
        assert(digits_value(decimal(n).drop_last()) == 0);
        assert(digit_char(n) as int == n + 48);
    } else {
        lemma_decimal(n / 10);
        assert(decimal(n).drop_last() =~= decimal(n / 10));
        assert(digit_char(n % 10) as int == n % 10 + 48);
        assert(decimal(n).last() == digit_char(n % 10));
    }
}

proof fn lemma_two_digits(n: nat)
    ensures
        two_digits(n).len() >= 2,
        n < 100 ==> two_digits(n).len() == 2,
        forall|i: int| 0 <= i < two_digits(n).len() ==> is_digit(#[trigger] two_digits(n)[i]),
        digits_value(two_digits(n)) == n,
{
    if n < 10 {
        let t = two_digits(n);
        assert(t.drop_last() =~= seq!['0']);
        assert(seq!['0'].drop_last() =~= Seq::<char>::empty());
        assert(digits_value(seq!['0'].drop_last()) == 0);
        assert('0' as int == 48);
        assert(digits_value(seq!['0']) == 0);
        assert(digit_char(n) as int == n + 48);
    } else {
        lemma_decimal(n);
        lemma_decimal(n / 10);
        assert(decimal(n).drop_last() =~= decimal(n / 10));
        if n < 100 {
            assert(decimal(n / 10) =~= seq![digit_char(n / 10)]);
        }
    }
}

/// Whether `s` reads as `mm:ss` for `v` seconds: a `:` third from the end,
/// digits everywhere else, two digits of seconds below 60 after it, and the
/// whole minutes before it.
pub open spec fn reads_as_time(s: Seq<char>, v: nat) -> bool {
    let n = s.len() as int;
    &&& n >= 5
    &&& s[n - 3] == ':'
    &&& forall|i: int| 0 <= i < n && i != n - 3 ==> is_digit(#[trigger] s[i])
    &&& digits_value(s.subrange(n - 2, n)) < 60
    &&& digits_value(s.subrange(0, n - 3)) * 60 + digits_value(s.subrange(n - 2, n)) == v
}

/// Whether `t` reads as `a / b` where `a` reads as `position` seconds and
/// `b` as `duration` seconds.
pub open spec fn reads_as_time_pair(t: Seq<char>, position: nat, duration: nat) -> bool {
    exists|j: int|
        #![trigger t.subrange(j + 2, t.len() as int)]
        1 <= j < t.len() - 1 && t[j - 1] == ' ' && t[j] == '/' && t[j + 1] == ' ' && reads_as_time(
            t.subrange(0, j - 1),
            position,
        ) && reads_as_time(t.subrange(j + 2, t.len() as int), duration)
}

/// A time text reads back as the number of seconds it was made from: the
/// two characters after the last `:` are the seconds below a minute, the
/// digits before it the whole minutes, and every other character is a digit.
pub proof fn time_text_reads_back(seconds: nat)
    ensures
        reads_as_time(time_text(seconds), seconds),
{
    let m = seconds / 60;
    let s = seconds % 60;
    lemma_two_digits(m);
    lemma_two_digits(s);
    let t = time_text(seconds);
    let n = t.len() as int;
    assert(t.subrange(0, n - 3) =~= two_digits(m));
    assert(t.subrange(n - 2, n) =~= two_digits(s));
    assert forall|i: int| 0 <= i < n && i != n - 3 implies is_digit(#[trigger] t[i]) by {
        if i < n - 3 {
            assert(t[i] == two_digits(m)[i]);
        } else {
            assert(t[i] == two_digits(s)[i - (n - 2)]);
        }
    }
}

/// The progress text reads back as the position and the length it was made
/// from: the part before ` / ` reads as the position, the part after it as
/// the track's length.
pub proof fn time_pair_reads_back(position: nat, duration: nat)
    ensures
        reads_as_time_pair(time_pair_text(position, duration), position, duration),
{
    let a = time_text(position);
    let b = time_text(duration);
    let t = time_pair_text(position, duration);
    time_text_reads_back(position);
    time_text_reads_back(duration);
    let j: int = a.len() as int + 1;
    assert(t.subrange(0, j - 1) =~= a);
    assert(t.subrange(j + 2, t.len() as int) =~= b);
    assert(t[j - 1] == ' ' && t[j] == '/' && t[j + 1] == ' ');
}

/// Whether `t` shows the number `v` in decimal right before `suffix`: a run
/// of digits that no digit precedes reads as `v` and is followed by `suffix`.
pub open spec fn shows_number_before(t: Seq<char>, v: nat, suffix: Seq<char>) -> bool {
    exists|i: int, j: int|
        #![trigger t.subrange(i, j)]
        0 <= i < j && j + suffix.len() <= t.len() && (i == 0 || !is_digit(t[i - 1])) && (forall|
            k: int,
        |
            i <= k < j ==> is_digit(#[trigger] t[k])) && digits_value(t.subrange(i, j)) == v
            && t.subrange(j, j + suffix.len()) == suffix
}

#[verifier::spinoff_prover]
#[verifier::rlimit(40)]
proof fn lemma_number_shown(a: Seq<char>, v: nat, suffix: Seq<char>, c: Seq<char>)
    requires
        a.len() == 0 || !is_digit(a.last()),
    ensures
        shows_number_before(a + decimal(v) + suffix + c, v, suffix),
{
    lemma_decimal(v);
    let t = a + decimal(v) + suffix + c;
    let i = a.len() as int;
    let j = i + decimal(v).len();
    assert(t.subrange(i, j) =~= decimal(v));
    assert(t.subrange(j, j + suffix.len()) =~= suffix);
    assert forall|k: int| i <= k < j implies is_digit(#[trigger] t[k]) by {
        assert(t[k] == decimal(v)[k - i]);
    }
    if i > 0 {
        assert(t[i - 1] == a.last());
    }
}

/// Every character of a number part is a digit or a character of its suffix.
proof fn lemma_part_chars(n: Option<u32>, suffix: Seq<char>)
    ensures
        forall|k: int|
            0 <= k < optional_part(decimal_of(n), suffix).len() ==> is_digit(
                #[trigger] optional_part(decimal_of(n), suffix)[k],
            ) || suffix.contains(optional_part(decimal_of(n), suffix)[k]),
        optional_part(decimal_of(n), suffix).len() > 0 ==> is_digit(
            optional_part(decimal_of(n), suffix)[0],
        ),
        n is None ==> optional_part(decimal_of(n), suffix).len() == 0,
{
    if let Some(v) = n {
        lemma_decimal(v as nat);
        let d = decimal(v as nat);
        let part = d + suffix;
        assert forall|k: int| 0 <= k < part.len() implies is_digit(#[trigger] part[k])
            || suffix.contains(part[k]) by {
            if k >= d.len() {
                assert(part[k] == suffix[k - d.len()]);
            }
        }
    }
}

/// Whether `t` reads as a stream facts line for the given facts: a known
/// format's name starts it, followed by ` | `; each known number stands in
/// decimal right before its unit (` bit | `, ` hz | `, ` cn`), and the
/// channel count ends the line. Without a format's name, the line starts
/// with a digit (or is empty), and an unknown part leaves no trace: its
/// unit's letter appears nowhere in the line.
pub open spec fn reads_as_stream_info(
    t: Seq<char>,
    format_type: Option<Seq<char>>,
    bit_depth: Option<u32>,
    sample_rate: Option<u32>,
    channels: Option<u32>,
) -> bool {
    &&& format_type is Some ==> t.len() >= format_type->0.len() + 3 && t.subrange(
        0,
        format_type->0.len() as int + 3,
    ) == format_type->0 + " | "@
    &&& bit_depth is Some ==> shows_number_before(t, bit_depth->0 as nat, " bit | "@)
    &&& sample_rate is Some ==> shows_number_before(t, sample_rate->0 as nat, " hz | "@)
    &&& channels is Some ==> shows_number_before(t, channels->0 as nat, " cn"@) && t.len() >= 3
        && t.subrange(t.len() - 3, t.len() as int) == " cn"@
    &&& format_type is None ==> t.len() == 0 || is_digit(t[0])
    &&& format_type is None && bit_depth is None ==> forall|k: int|
        0 <= k < t.len() ==> #[trigger] t[k] != 'b'
    &&& format_type is None && sample_rate is None ==> forall|k: int|
        0 <= k < t.len() ==> #[trigger] t[k] != 'h'
    &&& format_type is None && channels is None ==> forall|k: int|
        0 <= k < t.len() ==> #[trigger] t[k] != 'c'
}

/// The stream facts line reads back as the facts it was made from (see
/// [`reads_as_stream_info`]).
pub proof fn stream_info_reads_back(
    format_type: Option<Seq<char>>,
    bit_depth: Option<u32>,
    sample_rate: Option<u32>,
    channels: Option<u32>,
)
    ensures
        reads_as_stream_info(
            stream_info_text(format_type, bit_depth, sample_rate, channels),
            format_type,
            bit_depth,
            sample_rate,
            channels,
        ),
{
    stream_info_format_shown(format_type, bit_depth, sample_rate, channels);
    stream_info_numbers_shown(format_type, bit_depth, sample_rate, channels);
    stream_info_unknown_left_out(format_type, bit_depth, sample_rate, channels);
}

proof fn stream_info_format_shown(
    format_type: Option<Seq<char>>,
    bit_depth: Option<u32>,
    sample_rate: Option<u32>,
    channels: Option<u32>,
)
    ensures
        ({
            let t = stream_info_text(format_type, bit_depth, sample_rate, channels);
            format_type is Some ==> t.len() >= format_type->0.len() + 3 && t.subrange(
                0,
                format_type->0.len() as int + 3,
            ) == format_type->0 + " | "@
        }),
{
    let t = stream_info_text(format_type, bit_depth, sample_rate, channels);
    if let Some(f) = format_type {
        reveal_strlit(" | ");
        assert(t.subrange(0, f.len() as int + 3) =~= f + " | "@);
    }
}

proof fn part_ends_in_non_digit(p: Seq<char>, n: Option<u32>, suffix: Seq<char>)
    requires
        p == optional_part(decimal_of(n), suffix),
        suffix.len() > 0,
        !is_digit(suffix.last()),
    ensures
        p.len() == 0 || !is_digit(p.last()),
{
    if let Some(v) = n {
        assert(p.last() == suffix.last());
    }
}

/// The parts before each number end in a non-digit (or are empty).
#[verifier::spinoff_prover]
#[verifier::rlimit(40)]
proof fn stream_info_prefixes(
    format_type: Option<Seq<char>>,
    bit_depth: Option<u32>,
    sample_rate: Option<u32>,
)
    ensures
        ({
            let p1 = optional_part(format_type, " | "@);
            let a12 = p1 + optional_part(decimal_of(bit_depth), " bit | "@);
            let a123 = a12 + optional_part(decimal_of(sample_rate), " hz | "@);
            &&& p1.len() == 0 || !is_digit(p1.last())
            &&& a12.len() == 0 || !is_digit(a12.last())
            &&& a123.len() == 0 || !is_digit(a123.last())
        }),
{
    reveal_strlit(" | ");
    reveal_strlit(" bit | ");
    reveal_strlit(" hz | ");
    let p1 = optional_part(format_type, " | "@);
    let p2 = optional_part(decimal_of(bit_depth), " bit | "@);
    let p3 = optional_part(decimal_of(sample_rate), " hz | "@);
    part_ends_in_non_digit(p2, bit_depth, " bit | "@);
    part_ends_in_non_digit(p3, sample_rate, " hz | "@);
    let a12 = p1 + p2;
    if p2.len() > 0 {
        assert(a12.last() == p2.last());
    }
    let a123 = a12 + p3;
    if p3.len() > 0 {
        assert(a123.last() == p3.last());
    }
}

proof fn stream_info_numbers_shown(
    format_type: Option<Seq<char>>,
    bit_depth: Option<u32>,
    sample_rate: Option<u32>,
    channels: Option<u32>,
)
    ensures
        ({
            let t = stream_info_text(format_type, bit_depth, sample_rate, channels);
            &&& bit_depth is Some ==> shows_number_before(t, bit_depth->0 as nat, " bit | "@)
            &&& sample_rate is Some ==> shows_number_before(t, sample_rate->0 as nat, " hz | "@)
            &&& channels is Some ==> shows_number_before(t, channels->0 as nat, " cn"@)
                && t.len() >= 3 && t.subrange(t.len() - 3, t.len() as int) == " cn"@
        }),
{
    stream_info_bit_depth_shown(format_type, bit_depth, sample_rate, channels);
    stream_info_sample_rate_shown(format_type, bit_depth, sample_rate, channels);
    stream_info_channels_shown(format_type, bit_depth, sample_rate, channels);
}

#[verifier::spinoff_prover]
#[verifier::rlimit(40)]
proof fn stream_info_bit_depth_shown(
    format_type: Option<Seq<char>>,
    bit_depth: Option<u32>,
    sample_rate: Option<u32>,
    channels: Option<u32>,
)
    ensures
        bit_depth is Some ==> shows_number_before(
            stream_info_text(format_type, bit_depth, sample_rate, channels),
            bit_depth->0 as nat,
            " bit | "@,
        ),
{
    if let Some(b) = bit_depth {
        stream_info_prefixes(format_type, bit_depth, sample_rate);
        let p1 = optional_part(format_type, " | "@);
        let rest = optional_part(decimal_of(sample_rate), " hz | "@) + optional_part(
            decimal_of(channels),
            " cn"@,
        );
        lemma_number_shown(p1, b as nat, " bit | "@, rest);
        assert(p1 + decimal(b as nat) + " bit | "@ + rest =~= stream_info_text(
            format_type,
            bit_depth,
            sample_rate,
            channels,
        ));
    }
}

#[verifier::spinoff_prover]
#[verifier::rlimit(40)]
proof fn stream_info_sample_rate_shown(
    format_type: Option<Seq<char>>,
    bit_depth: Option<u32>,
    sample_rate: Option<u32>,
    channels: Option<u32>,
)
    ensures
        sample_rate is Some ==> shows_number_before(
            stream_info_text(format_type, bit_depth, sample_rate, channels),
            sample_rate->0 as nat,
            " hz | "@,
        ),
{
    if let Some(r) = sample_rate {
        stream_info_prefixes(format_type, bit_depth, sample_rate);
        let a12 = optional_part(format_type, " | "@) + optional_part(
            decimal_of(bit_depth),
            " bit | "@,
        );
        let rest = optional_part(decimal_of(channels), " cn"@);
        lemma_number_shown(a12, r as nat, " hz | "@, rest);
        assert(a12 + decimal(r as nat) + " hz | "@ + rest =~= stream_info_text(
            format_type,
            bit_depth,
            sample_rate,
            channels,
        ));
    }
}

#[verifier::spinoff_prover]
#[verifier::rlimit(40)]
proof fn stream_info_channels_shown(
    format_type: Option<Seq<char>>,
    bit_depth: Option<u32>,
    sample_rate: Option<u32>,
    channels: Option<u32>,
)
    ensures
        ({
            let t = stream_info_text(format_type, bit_depth, sample_rate, channels);
            channels is Some ==> shows_number_before(t, channels->0 as nat, " cn"@) && t.len()
                >= 3 && t.subrange(t.len() - 3, t.len() as int) == " cn"@
        }),
{
    if let Some(c) = channels {
        stream_info_prefixes(format_type, bit_depth, sample_rate);
        reveal_strlit(" cn");
        let a123 = optional_part(format_type, " | "@) + optional_part(
            decimal_of(bit_depth),
            " bit | "@,
        ) + optional_part(decimal_of(sample_rate), " hz | "@);
        let t = stream_info_text(format_type, bit_depth, sample_rate, channels);
        lemma_number_shown(a123, c as nat, " cn"@, Seq::empty());
        assert(a123 + decimal(c as nat) + " cn"@ + Seq::<char>::empty() =~= t);
        assert(t.subrange(t.len() - 3, t.len() as int) =~= " cn"@);
    }
}

#[verifier::spinoff_prover]
#[verifier::rlimit(40)]
proof fn stream_info_unknown_left_out(
    format_type: Option<Seq<char>>,
    bit_depth: Option<u32>,
    sample_rate: Option<u32>,
    channels: Option<u32>,
)
    ensures
        ({
            let t = stream_info_text(format_type, bit_depth, sample_rate, channels);
            &&& format_type is None ==> t.len() == 0 || is_digit(t[0])
            &&& format_type is None && bit_depth is None ==> forall|k: int|
                0 <= k < t.len() ==> #[trigger] t[k] != 'b'
            &&& format_type is None && sample_rate is None ==> forall|k: int|
                0 <= k < t.len() ==> #[trigger] t[k] != 'h'
            &&& format_type is None && channels is None ==> forall|k: int|
                0 <= k < t.len() ==> #[trigger] t[k] != 'c'
        }),
{
    if format_type is None {
        reveal_strlit(" bit | ");
        reveal_strlit(" hz | ");
        reveal_strlit(" cn");
        let p2 = optional_part(decimal_of(bit_depth), " bit | "@);
        let p3 = optional_part(decimal_of(sample_rate), " hz | "@);
        let p4 = optional_part(decimal_of(channels), " cn"@);
        let t = stream_info_text(format_type, bit_depth, sample_rate, channels);
        lemma_part_chars(bit_depth, " bit | "@);
        lemma_part_chars(sample_rate, " hz | "@);
        lemma_part_chars(channels, " cn"@);
        assert(t =~= p2 + p3 + p4);
        if t.len() > 0 {
            if p2.len() > 0 {
                assert(t[0] == p2[0]);
            } else if p3.len() > 0 {
                assert(t[0] == p3[0]);
            } else {
                assert(t[0] == p4[0]);
            }
        }
        let n2 = p2.len() as int;
        let n3 = p3.len() as int;
        assert forall|k: int| 0 <= k < t.len() implies (bit_depth is None ==> #[trigger] t[k]
            != 'b') && (sample_rate is None ==> t[k] != 'h') && (channels is None ==> t[k]
            != 'c') by {
            if k < n2 {
                assert(t[k] == p2[k]);
            } else if k < n2 + n3 {
                assert(t[k] == p3[k - n2]);
            } else {
                assert(t[k] == p4[k - n2 - n3]);
            }
        }
    }
}

/// Different numbers of seconds never show as the same time text.
pub proof fn time_text_injective(a: nat, b: nat)
    requires
        time_text(a) == time_text(b),
    ensures
        a == b,
{
    time_text_reads_back(a);
    time_text_reads_back(b);
    let t = time_text(a);
    let n = t.len() as int;
    assert(digits_value(t.subrange(0, n - 3)) * 60 + digits_value(t.subrange(n - 2, n)) == a);
}

} // verus!
