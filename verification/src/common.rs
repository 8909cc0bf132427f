use vstd::prelude::*;

verus! {

/// The text of one decimal digit.
pub open spec fn digit(value: int) -> Seq<char> {
    if value == 0 {
        "0"@
    } else if value == 1 {
        "1"@
    } else if value == 2 {
        "2"@
    } else if value == 3 {
        "3"@
    } else if value == 4 {
        "4"@
    } else if value == 5 {
        "5"@
    } else if value == 6 {
        "6"@
    } else if value == 7 {
        "7"@
    } else if value == 8 {
        "8"@
    } else {
        "9"@
    }
}

/// The decimal digits of a number that is not negative, without leading
/// zeros.
pub open spec fn digits(number: int) -> Seq<char>
    decreases number,
{
    if number < 10 {
        digit(number)
    } else {
        digits(number / 10) + digit(number % 10)
    }
}

/// The decimal text of a number: its digits, after a minus sign if it is
/// negative.
pub open spec fn decimal(number: i64) -> Seq<char> {
    if number < 0 {
        "-"@ + digits(-(number as int))
    } else {
        digits(number as int)
    }
}

fn digit_text(value: u64) -> (text: &'static str)
    requires
        value < 10,
    ensures
        text@ == digit(value as int),
{
    if value == 0 {
        "0"
    } else if value == 1 {
        "1"
    } else if value == 2 {
        "2"
    } else if value == 3 {
        "3"
    } else if value == 4 {
        "4"
    } else if value == 5 {
        "5"
    } else if value == 6 {
        "6"
    } else if value == 7 {
        "7"
    } else if value == 8 {
        "8"
    } else {
        "9"
    }
}

/// Writes a number that is not negative in decimal.
pub fn u64_to_string(number: u64) -> (text: String)
    ensures
        text@ == digits(number as int),
    decreases number,
{
    if number < 10 {
        String::from_str(digit_text(number))
    } else {
        let mut text = u64_to_string(number / 10);
        text.append(digit_text(number % 10));
        text
    }
}

/// Writes a number in decimal.
pub fn i64_to_string(number: i64) -> (text: String)
    ensures
        text@ == decimal(number),
{
    if number < 0 {
        let magnitude: u64 = (-(number as i128)) as u64;
        let mut text = String::from_str("-");
        text.append(u64_to_string(magnitude).as_str());
        text
    } else {
        u64_to_string(number as u64)
    }
}

/// The decimal text of a number, with a zero before a single digit.
pub open spec fn two_digits(number: int) -> Seq<char> {
    if number < 10 {
        "0"@ + digits(number)
    } else {
        digits(number)
    }
}

/// Writes a number in decimal, in at least two places.
pub fn format_two_digits(number: u64) -> (text: String)
    ensures
        text@ == two_digits(number as int),
{
    if number < 10 {
        let mut text = String::from_str("0");
        text.append(u64_to_string(number).as_str());
        text
    } else {
        u64_to_string(number)
    }
}

/// What is left of `text` once `suffix` is taken off its end as often as it
/// stands there.
pub open spec fn trimmed_end(text: Seq<char>, suffix: Seq<char>) -> Seq<char>
    decreases text.len(),
{
    if suffix.len() > 0 && suffix.len() <= text.len() && text.subrange(
        text.len() - suffix.len(),
        text.len() as int,
    ) == suffix {
        trimmed_end(text.subrange(0, text.len() - suffix.len()), suffix)
    } else {
        text
    }
}

fn matches_at(text: &str, at: usize, pattern: &str, len: usize) -> (yes: bool)
    requires
        len == pattern@.len(),
        at + len <= text@.len(),
        at + len <= usize::MAX,
    ensures
        yes == (text@.subrange(at as int, at + len) == pattern@),
{
    let mut k: usize = 0;
    while k < len
        invariant
            k <= len,
            len == pattern@.len(),
            at + len <= text@.len(),
            at + len <= usize::MAX,
            forall|j: int| 0 <= j < k ==> text@[at + j] == pattern@[j],
        decreases len - k,
    {
        if text.get_char(at + k) != pattern.get_char(k) {
            proof {
                assert(text@.subrange(at as int, at + len)[k as int] != pattern@[k as int]);
            }
            return false;
        }
        k += 1;
    }
    proof {
        assert(text@.subrange(at as int, at + len) =~= pattern@);
    }
    true
}

/// Takes `suffix` off the end of `text` as often as it stands there.
pub fn trim_end_matches<'a>(text: &'a str, suffix: &str) -> (rest: &'a str)
    ensures
        rest@ == trimmed_end(text@, suffix@),
{
    let len: usize = suffix.unicode_len();
    let mut end: usize = text.unicode_len();
    proof {
        assert(text@.subrange(0, end as int) =~= text@);
    }
    if len == 0 {
        return text;
    }
    while end >= len && matches_at(text, end - len, suffix, len)
        invariant
            end <= text@.len(),
            len == suffix@.len(),
            len > 0,
            trimmed_end(text@, suffix@) == trimmed_end(text@.subrange(0, end as int), suffix@),
        decreases end,
    {
        proof {
            let current = text@.subrange(0, end as int);
            assert(current.subrange(current.len() - len, current.len() as int) =~= text@.subrange(
                end - len,
                end as int,
            ));
            assert(current.subrange(0, current.len() - len) =~= text@.subrange(0, end - len));
        }
        end -= len;
    }
    proof {
        let current = text@.subrange(0, end as int);
        if end >= len {
            assert(current.subrange(current.len() - len, current.len() as int) =~= text@.subrange(
                end - len,
                end as int,
            ));
        }
    }
    text.substring_char(0, end)
}

/// Whether a character is a decimal digit.
pub open spec fn is_digit(c: char) -> bool {
    48 <= c as u32 <= 57
}

/// The number that a text of decimal digits stands for.
pub open spec fn number(text: Seq<char>) -> int
    decreases text.len(),
{
    if text.len() == 0 {
        0
    } else {
        number(text.drop_last()) * 10 + (text.last() as u32 - 48)
    }
}

pub open spec fn all_digits(text: Seq<char>) -> bool {
    forall|i: int| 0 <= i < text.len() ==> is_digit(#[trigger] text[i])
}

/// Whether a text begins with a sign.
pub open spec fn signed(text: Seq<char>) -> bool {
    text.len() > 0 && (text[0] == '-' || text[0] == '+')
}

/// The number that a text stands for: decimal digits, at least one, after
/// an optional sign, if the number fits 64 bits; else nothing.
pub open spec fn parsed_i64(text: Seq<char>) -> Option<i64> {
    let body = if signed(text) {
        text.skip(1)
    } else {
        text
    };
    let value = if signed(text) && text[0] == '-' {
        -number(body)
    } else {
        number(body)
    };
    if body.len() > 0 && all_digits(body) && i64::MIN <= value <= i64::MAX {
        Some(value as i64)
    } else {
        None
    }
}

/// The number of a text of digits is not negative and not less than the
/// number of any of its beginnings.
pub proof fn lemma_number_grows(text: Seq<char>, k: int)
    requires
        all_digits(text),
        0 <= k <= text.len(),
    ensures
        0 <= number(text.take(k)) <= number(text),
    decreases text.len(),
{
    if text.len() == 0 {
        assert(text.take(k) =~= text);
    } else if k == text.len() {
        assert(text.take(k) =~= text);
        lemma_number_grows(text.drop_last(), k - 1);
        assert(is_digit(text[text.len() - 1]));
    } else {
        lemma_number_grows(text.drop_last(), k);
        assert(text.drop_last().take(k) =~= text.take(k));
        assert(is_digit(text[text.len() - 1]));
    }
}

/// Reads a number in decimal from a text.
pub fn parse_i64(text: &str) -> (result: Option<i64>)
    ensures
        result == parsed_i64(text@),
{
    let n: usize = text.unicode_len();
    if n == 0 {
        return None;
    }
    let first = text.get_char(0);
    let negative = first == '-';
    let start: usize = if first == '-' || first == '+' {
        1
    } else {
        0
    };
    if start == n {
        return None;
    }
    let ghost body = text@.skip(start as int);
    proof {
        assert(text@.skip(0) =~= text@);
        assert(body.take(0) =~= Seq::<char>::empty());
    }
    let mut magnitude: u128 = 0;
    let mut i: usize = start;
    while i < n
        invariant
            start <= i <= n,
            n == text@.len(),
            body == text@.skip(start as int),
            body == (if signed(text@) {
                text@.skip(1)
            } else {
                text@
            }),
            body.len() > 0,
            all_digits(body.take(i - start)),
            magnitude == number(body.take(i - start)),
            magnitude <= 0x8000_0000_0000_0000,
        decreases n - i,
    {
        let c = text.get_char(i);
        let code: u32 = c as u32;
        proof {
            assert(body[i - start] == c);
            assert(body.take(i + 1 - start).drop_last() =~= body.take(i - start));
            assert(body.take(i + 1 - start).last() == c);
        }
        if code < 48 || code > 57 {
            return None;
        }
        magnitude = magnitude * 10 + ((code - 48) as u128);
        proof {
            assert forall|k: int| 0 <= k < i + 1 - start implies is_digit(
                #[trigger] body.take(i + 1 - start)[k],
            ) by {
                if k < i - start {
                    assert(body.take(i - start)[k] == body.take(i + 1 - start)[k]);
                }
            }
        }
        if magnitude > 0x8000_0000_0000_0000 {
            proof {
                if all_digits(body) {
                    lemma_number_grows(body, i + 1 - start);
                }
            }
            return None;
        }
        i += 1;
    }
    proof {
        assert(body.take(n - start) =~= body);
    }
    if negative {
        Some((-(magnitude as i128)) as i64)
    } else if magnitude > 0x7fff_ffff_ffff_ffff {
        None
    } else {
        Some(magnitude as i64)
    }
}

#[derive(Clone, Copy, Debug, PartialEq, Eq, Structural)]
pub enum SortOrder {
    Ascending,
    Descending,
}

#[derive(Clone, Copy, Debug, PartialEq, Eq, Structural)]
pub struct HumanDateParams {
    /// If true, the time is delimited with `-` instead of `:`.
    pub filename_safe: bool,
}

impl HumanDateParams {
    /// The pattern with which the time of day is formatted.
    pub fn time_format(&self) -> (pattern: &'static str)
        ensures
            pattern@ == if self.filename_safe {
                "%H-%M"@
            } else {
                "%R"@
            },
    {
        if self.filename_safe {
            "%H-%M"
        } else {
            "%R"
        }
    }
}

/// A date without time.
#[derive(Clone, Copy, Debug, PartialEq, Eq, Structural)]
pub struct Date {
    pub year: i32,
    pub month: u32,
    pub day: u32,
}

/// Age, in seconds, below which a moment counts as just now.
pub const JUST_NOW_THRESHOLD_SECS: i64 = 60;

/// How a moment is described relative to now.
pub open spec fn spec_human_date_ago(
    age_secs: i64,
    date: Date,
    today: Date,
    yesterday: Date,
    month: Seq<char>,
    time: Seq<char>,
) -> Seq<char> {
    if age_secs < JUST_NOW_THRESHOLD_SECS {
        "Just now"@
    } else if date == today {
        "Today at "@ + time
    } else if date == yesterday {
        "Yesterday at "@ + time
    } else if date.year == today.year {
        month + " "@ + decimal(date.day as i64) + " at "@ + time
    } else {
        decimal(date.day as i64) + " "@ + month + " "@ + decimal(date.year as i64) + " at "@ + time
    }
}

/// Describes a moment relative to now. `age_secs` is the time since the
/// moment; `date` is its date, `month` the name of its month and `time` its
/// time of day, both already formatted.
pub fn human_date_ago(
    age_secs: i64,
    date: Date,
    today: Date,
    yesterday: Date,
    month: &str,
    time: &str,
) -> (text: String)
    ensures
        text@ == spec_human_date_ago(age_secs, date, today, yesterday, month@, time@),
{
    if age_secs < JUST_NOW_THRESHOLD_SECS {
        return String::from_str("Just now");
    }
    if date == today {
        let mut text = String::from_str("Today at ");
        text.append(time);
        return text;
    }
    if date == yesterday {
        let mut text = String::from_str("Yesterday at ");
        text.append(time);
        return text;
    }
    if date.year == today.year {
        let mut text = String::from_str(month);
        text.append(" ");
        text.append(i64_to_string(date.day as i64).as_str());
        text.append(" at ");
        text.append(time);
        text
    } else {
        let mut text = i64_to_string(date.day as i64);
        text.append(" ");
        text.append(month);
        text.append(" ");
        text.append(i64_to_string(date.year as i64).as_str());
        text.append(" at ");
        text.append(time);
        text
    }
}

/// Whether `text` begins with `prefix`.
pub(crate) fn starts_with(text: &str, prefix: &str) -> (yes: bool)
    ensures
        yes == prefix@.is_prefix_of(text@),
{
    let n: usize = prefix.unicode_len();
    if text.unicode_len() < n {
        return false;
    }
    let mut i: usize = 0;
    while i < n
        invariant
            i <= n,
            n == prefix@.len(),
            n <= text@.len(),
            forall|k: int| 0 <= k < i ==> text@[k] == prefix@[k],
        decreases n - i,
    {
        if text.get_char(i) != prefix.get_char(i) {
            proof {
                assert(text@.subrange(0, n as int)[i as int] != prefix@[i as int]);
            }
            return false;
        }
        i += 1;
    }
    proof {
        assert(text@.subrange(0, n as int) =~= prefix@);
    }
    true
}

/// Whether two texts are equal.
pub(crate) fn str_eq(a: &str, b: &str) -> (yes: bool)
    ensures
        yes == (a@ == b@),
{
    if a.unicode_len() != b.unicode_len() {
        return false;
    }
    let yes = starts_with(a, b);
    proof {
        if yes {
            assert(a@.subrange(0, b@.len() as int) =~= a@);
        }
    }
    yes
}

} // verus!
