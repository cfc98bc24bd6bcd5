//! Formatting of raw leaderboard scores for display.

use crate::LeaderboardGameMode;
use crate::digits::{
    dec_digits, is_decimal_digit, lemma_dec_digits_are_digits, lemma_pad2_digits_shape,
    pad2_digits, pad2_string,
};
use thousands::Separable;
use vstd::prelude::*;

verus! {

/// Milliseconds in an hour.
pub const MS_PER_HOUR: u32 = 3600000;

/// Milliseconds in a minute.
pub const MS_PER_MINUTE: u32 = 60000;

/// Milliseconds in a second.
pub const MS_PER_SECOND: u32 = 1000;

/// The time code displayed for an elapsed time of `ms` milliseconds: hours,
/// minutes, seconds and centiseconds, each zero-padded to at least two
/// digits, joined as `HH:MM:SS.CC`. Hours are the full hour count of `ms`,
/// never reduced modulo 24, so times past a day render correctly.
pub open spec fn time_code_chars(ms: int) -> Seq<char>
    recommends
        0 <= ms,
{
    let hours = ms / (MS_PER_HOUR as int);
    let rem_hours = ms % (MS_PER_HOUR as int);
    let minutes = rem_hours / (MS_PER_MINUTE as int);
    let rem_minutes = rem_hours % (MS_PER_MINUTE as int);
    let seconds = rem_minutes / (MS_PER_SECOND as int);
    let rem_seconds = rem_minutes % (MS_PER_SECOND as int);
    let centiseconds = rem_seconds / 10;
    pad2_digits(hours as nat) + ":"@ + pad2_digits(minutes as nat) + ":"@ + pad2_digits(
        seconds as nat,
    ) + "."@ + pad2_digits(centiseconds as nat)
}

/// `digits` with a comma inserted every three characters, counting from the
/// right; sequences of at most three characters are left as they are.
pub open spec fn group_with_commas(digits: Seq<char>) -> Seq<char>
    decreases digits.len(),
{
    if digits.len() <= 3 {
        digits
    } else {
        group_with_commas(digits.take(digits.len() - 3)) + ","@ + digits.skip(digits.len() - 3)
    }
}

/// `s` with every comma removed.
pub open spec fn without_commas(s: Seq<char>) -> Seq<char> {
    s.filter(|c: char| c != ',')
}

/// The characters displayed for a raw score under the given game mode: a time
/// code for the time-trial modes, and a comma-grouped point total with the
/// unit suffix `" eV"` for Stunt.
pub open spec fn format_score_chars(score: int, game_mode: LeaderboardGameMode) -> Seq<char>
    recommends
        0 <= score,
{
    match game_mode {
        LeaderboardGameMode::Sprint | LeaderboardGameMode::Challenge => time_code_chars(score),
        LeaderboardGameMode::Stunt => group_with_commas(dec_digits(score as nat)) + " eV"@,
    }
}

/// The error returned when a negative score is passed to [`format_score`].
#[derive(Debug, Copy, Clone, Hash, Eq, PartialEq, Ord, PartialOrd, Structural)]
pub struct NegativeScoreError {
    score: i32,
}

impl NegativeScoreError {
    /// The offending score carried by this error.
    pub closed spec fn spec_score(&self) -> i32 {
        self.score
    }

    /// Returns the offending score that was passed in.
    pub fn score(&self) -> (score: i32)
        ensures
            score == self.spec_score(),
    {
        self.score
    }

    /// The diagnostic text describing this error.
    pub open spec fn spec_message(&self) -> Seq<char> {
        "The score \""@ + crate::digits::signed_dec_digits(self.spec_score() as int)
            + "\" is invalid because it's negative"@
    }

    /// Returns a diagnostic description of this error.
    pub fn message(&self) -> (text: String)
        ensures
            text@ == self.spec_message(),
    {
        let mut text = String::from_str("The score \"");
        text.append(crate::digits::signed_dec_string(self.score).as_str());
        text.append("\" is invalid because it's negative");
        text
    }
}

/// Relies on thousands::Separable::separate_with_commas, which renders the
/// number in decimal and inserts a comma every three digits, counting from
/// the right.
#[verifier::external_body]
fn separate_with_commas_u32(n: u32) -> (s: String)
    ensures
        s@ == group_with_commas(dec_digits(n as nat)),
{
    n.separate_with_commas()
}

/// Formats `score` as it would be displayed in-game: as a time code for the
/// Sprint and Challenge modes, where the raw value counts milliseconds, and
/// as a comma-grouped point total with the suffix `" eV"` for Stunt.
///
/// Returns an error exactly when `score` is negative; the error carries the
/// offending value. Unlike the in-game display, times past 24 hours keep
/// their full hour count instead of wrapping around to zero.
pub fn format_score(score: i32, game_mode: LeaderboardGameMode) -> (r: Result<
    String,
    NegativeScoreError,
>)
    ensures
        r is Err <==> score < 0,
        r matches Err(e) ==> e.spec_score() == score,
        r matches Ok(formatted) ==> formatted@ == format_score_chars(score as int, game_mode),
{
    if score < 0 {
        return Err(NegativeScoreError { score });
    }
    let formatted = match game_mode {
        LeaderboardGameMode::Sprint | LeaderboardGameMode::Challenge => format_score_as_time(
            score as u32,
        ),
        LeaderboardGameMode::Stunt => separate_with_commas_u32(score as u32).concat(" eV"),
    };
    Ok(formatted)
}

/// Renders a non-negative millisecond count as a time code, matching
/// `time_code_chars`.
fn format_score_as_time(score: u32) -> (s: String)
    ensures
        s@ == time_code_chars(score as int),
{
    let hours = score / MS_PER_HOUR;
    let rem_hours = score % MS_PER_HOUR;
    let minutes = rem_hours / MS_PER_MINUTE;
    let rem_minutes = rem_hours % MS_PER_MINUTE;
    let seconds = rem_minutes / MS_PER_SECOND;
    let rem_seconds = rem_minutes % MS_PER_SECOND;
    let centiseconds = rem_seconds / 10;

    let mut s = pad2_string(hours as u64);
    s.append(":");
    s.append(pad2_string(minutes as u64).as_str());
    s.append(":");
    s.append(pad2_string(seconds as u64).as_str());
    s.append(".");
    s.append(pad2_string(centiseconds as u64).as_str());
    s
}

/// A filter whose predicate holds of every element leaves the sequence
/// unchanged.
proof fn lemma_filter_retains_all(s: Seq<char>, pred: spec_fn(char) -> bool)
    requires
        forall|i: int| 0 <= i < s.len() ==> pred(#[trigger] s[i]),
    ensures
        s.filter(pred) =~= s,
    decreases s.len(),
{
    reveal(Seq::filter);
    if s.len() != 0 {
        assert(forall|i: int|
            0 <= i < s.drop_last().len() ==> pred(#[trigger] s.drop_last()[i]));
        lemma_filter_retains_all(s.drop_last(), pred);
        assert(pred(s.last()));
        assert(s.filter(pred) == s.drop_last().filter(pred).push(s.last()));
        assert(s.drop_last().push(s.last()) =~= s);
    }
}

/// Comma-grouping exactly partitions a sequence of decimal digits into groups
/// of three from the right: every digit is kept in order, a comma stands
/// after every third character counting from the right end, and nothing else
/// is inserted.
pub proof fn lemma_group_with_commas_shape(digits: Seq<char>)
    requires
        digits.len() >= 1,
        forall|i: int| 0 <= i < digits.len() ==> is_decimal_digit(#[trigger] digits[i]),
    ensures
        ({
            let grouped = group_with_commas(digits);
            &&& grouped.len() == digits.len() + (digits.len() - 1) / 3
            &&& forall|i: int|
                0 <= i < grouped.len() ==> ((#[trigger] grouped[i]) == ',' <==> (grouped.len()
                    - i) % 4 == 0)
            &&& forall|i: int|
                0 <= i < grouped.len() ==> (#[trigger] grouped[i] == ',' || is_decimal_digit(
                    grouped[i],
                ))
            &&& without_commas(grouped) == digits
        }),
    decreases digits.len(),
{
    reveal_strlit(",");
    let grouped = group_with_commas(digits);
    let pred = |c: char| c != ',';
    assert forall|i: int| 0 <= i < digits.len() implies pred(#[trigger] digits[i]) by {
        lemma_decimal_digit_is_not_comma(digits[i]);
    }
    if digits.len() <= 3 {
        lemma_filter_retains_all(digits, pred);
        assert forall|i: int| 0 <= i < grouped.len() implies ((#[trigger] grouped[i]) == ','
            <==> (grouped.len() - i) % 4 == 0) by {
            assert(grouped[i] != ',');
            assert(1 <= grouped.len() - i <= 3);
        }
    } else {
        let n = digits.len() as int;
        let prefix = digits.take(n - 3);
        let last3 = digits.skip(n - 3);
        assert(forall|i: int| 0 <= i < prefix.len() ==> prefix[i] == digits[i]);
        lemma_group_with_commas_shape(prefix);
        let gp = group_with_commas(prefix);
        assert(grouped == gp + ","@ + last3);
        assert(","@.len() == 1 && ","@[0] == ',');
        assert((n - 1) / 3 == (n - 4) / 3 + 1) by (nonlinear_arith)
            requires
                n > 3,
        ;
        assert(grouped.len() == n + (n - 1) / 3);

        // Comma positions.
        assert forall|i: int| 0 <= i < grouped.len() implies ((#[trigger] grouped[i]) == ','
            <==> (grouped.len() - i) % 4 == 0) by {
            if i < gp.len() {
                assert(grouped[i] == gp[i]);
                assert(grouped.len() - i == (gp.len() - i) + 4);
                assert(((gp.len() - i) + 4) % 4 == (gp.len() - i) % 4) by (nonlinear_arith);
            } else if i == gp.len() {
                assert(grouped[i] == ',');
                assert(grouped.len() - i == 4);
            } else {
                assert(grouped[i] == last3[i - gp.len() - 1]);
                assert(1 <= grouped.len() - i <= 3);
                lemma_decimal_digit_is_not_comma(grouped[i]);
            }
        }

        // Only digits and commas occur.
        assert forall|i: int| 0 <= i < grouped.len() implies (#[trigger] grouped[i] == ','
            || is_decimal_digit(grouped[i])) by {
            if i < gp.len() {
                assert(grouped[i] == gp[i]);
            } else if i > gp.len() {
                assert(grouped[i] == last3[i - gp.len() - 1]);
                assert(is_decimal_digit(digits[n - 3 + (i - gp.len() - 1)]));
            }
        }

        // Removing the commas recovers the digits.
        Seq::filter_distributes_over_add(gp + ","@, last3, pred);
        Seq::filter_distributes_over_add(gp, ","@, pred);
        assert(","@.filter(pred) =~= Seq::<char>::empty()) by {
            reveal(Seq::filter);
            reveal_strlit(",");
            let comma = ","@;
            assert(comma.drop_last() =~= Seq::<char>::empty());
            assert(Seq::<char>::empty().filter(pred) =~= Seq::<char>::empty());
            assert(!pred(comma.last()));
            assert(comma.filter(pred) == comma.drop_last().filter(pred));
        }
        lemma_filter_retains_all(last3, pred);
        assert(without_commas(grouped) =~= prefix + last3);
        assert(prefix + last3 =~= digits);
    }
}

/// A decimal digit character is never a comma.
proof fn lemma_decimal_digit_is_not_comma(c: char)
    requires
        is_decimal_digit(c),
    ensures
        c != ',',
{
    let d = choose|d: int| 0 <= d < 10 && c == crate::digits::digit_char(d);
    assert(crate::digits::digit_char(d) != ',');
}

/// For Stunt, the formatted score is the decimal digits of the score grouped
/// in threes from the right, followed by the literal unit suffix `" eV"`: the
/// grouped part holds every digit of the score in order, a comma after every
/// third character from its right end, and nothing else.
pub proof fn lemma_stunt_format_shape(score: int)
    requires
        0 <= score,
    ensures
        ({
            let formatted = format_score_chars(score, LeaderboardGameMode::Stunt);
            let digits = dec_digits(score as nat);
            let grouped = group_with_commas(digits);
            &&& formatted == grouped + " eV"@
            &&& grouped.len() == digits.len() + (digits.len() - 1) / 3
            &&& forall|i: int|
                0 <= i < grouped.len() ==> ((#[trigger] grouped[i]) == ',' <==> (grouped.len()
                    - i) % 4 == 0)
            &&& forall|i: int|
                0 <= i < grouped.len() ==> (#[trigger] grouped[i] == ',' || is_decimal_digit(
                    grouped[i],
                ))
            &&& without_commas(grouped) == digits
        }),
{
    lemma_dec_digits_are_digits(score as nat);
    lemma_group_with_commas_shape(dec_digits(score as nat));
}

/// For a non-negative score of fewer than one hundred hours, the formatted
/// time code has the exact shape `HH:MM:SS.CC`: eleven characters, with a
/// colon after the hour and minute fields, a period before the centisecond
/// field, and a decimal digit everywhere else.
pub proof fn lemma_time_code_pattern(ms: int)
    requires
        0 <= ms < 360000000,
    ensures
        time_code_chars(ms).len() == 11,
        time_code_chars(ms)[2] == ':',
        time_code_chars(ms)[5] == ':',
        time_code_chars(ms)[8] == '.',
        forall|i: int|
            0 <= i < 11 && i != 2 && i != 5 && i != 8 ==> is_decimal_digit(
                #[trigger] time_code_chars(ms)[i],
            ),
{
    reveal_strlit(":");
    reveal_strlit(".");
    let hours = ms / (MS_PER_HOUR as int);
    let rem_hours = ms % (MS_PER_HOUR as int);
    let minutes = rem_hours / (MS_PER_MINUTE as int);
    let rem_minutes = rem_hours % (MS_PER_MINUTE as int);
    let seconds = rem_minutes / (MS_PER_SECOND as int);
    let rem_seconds = rem_minutes % (MS_PER_SECOND as int);
    let centiseconds = rem_seconds / 10;
    assert(0 <= ms / 3600000 < 100) by (nonlinear_arith)
        requires
            0 <= ms < 360000000,
    ;
    assert(0 <= rem_hours < 3600000);
    assert(0 <= rem_hours / 60000 < 60) by (nonlinear_arith)
        requires
            0 <= rem_hours < 3600000,
    ;
    assert(0 <= rem_minutes < 60000);
    assert(0 <= rem_minutes / 1000 < 60) by (nonlinear_arith)
        requires
            0 <= rem_minutes < 60000,
    ;
    assert(0 <= rem_seconds < 1000);
    assert(0 <= rem_seconds / 10 < 100) by (nonlinear_arith)
        requires
            0 <= rem_seconds < 1000,
    ;
    lemma_pad2_digits_shape(hours as nat);
    lemma_pad2_digits_shape(minutes as nat);
    lemma_pad2_digits_shape(seconds as nat);
    lemma_pad2_digits_shape(centiseconds as nat);
    let a = pad2_digits(hours as nat);
    let b = pad2_digits(minutes as nat);
    let c = pad2_digits(seconds as nat);
    let d = pad2_digits(centiseconds as nat);
    assert(time_code_chars(ms) =~= seq![
        a[0],
        a[1],
        ':',
        b[0],
        b[1],
        ':',
        c[0],
        c[1],
        '.',
        d[0],
        d[1],
    ]);
}

/// For every non-negative score the hour field of the time code is the full
/// hour count of the score, zero-padded to at least two digits but never
/// reduced modulo 24: the characters before the first colon spell
/// `ms / 3600000` itself, however large.
pub proof fn lemma_time_code_no_wraparound(ms: int)
    requires
        0 <= ms,
    ensures
        ({
            let hour_field = pad2_digits((ms / (MS_PER_HOUR as int)) as nat);
            &&& time_code_chars(ms).len() == hour_field.len() + 9
            &&& time_code_chars(ms).take(hour_field.len() as int) == hour_field
            &&& time_code_chars(ms)[hour_field.len() as int] == ':'
        }),
{
    reveal_strlit(":");
    reveal_strlit(".");
    let hours = ms / (MS_PER_HOUR as int);
    let rem_hours = ms % (MS_PER_HOUR as int);
    let minutes = rem_hours / (MS_PER_MINUTE as int);
    let rem_minutes = rem_hours % (MS_PER_MINUTE as int);
    let seconds = rem_minutes / (MS_PER_SECOND as int);
    let rem_seconds = rem_minutes % (MS_PER_SECOND as int);
    let centiseconds = rem_seconds / 10;
    assert(0 <= rem_hours < 3600000);
    assert(0 <= rem_hours / 60000 < 60) by (nonlinear_arith)
        requires
            0 <= rem_hours < 3600000,
    ;
    assert(0 <= rem_minutes < 60000);
    assert(0 <= rem_minutes / 1000 < 60) by (nonlinear_arith)
        requires
            0 <= rem_minutes < 60000,
    ;
    assert(0 <= rem_seconds < 1000);
    assert(0 <= rem_seconds / 10 < 100) by (nonlinear_arith)
        requires
            0 <= rem_seconds < 1000,
    ;
    lemma_pad2_digits_shape(minutes as nat);
    lemma_pad2_digits_shape(seconds as nat);
    lemma_pad2_digits_shape(centiseconds as nat);
    crate::digits::lemma_pad2_digits_are_digits(hours as nat);
    let hour_field = pad2_digits(hours as nat);
    let t = time_code_chars(ms);
    assert(t.len() == hour_field.len() + 9);
    assert(t.take(hour_field.len() as int) =~= hour_field);
    assert(t[hour_field.len() as int] == ':');
}

} // verus!
