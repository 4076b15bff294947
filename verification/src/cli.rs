//! The command line: what an invocation asks for, and which ones are
//! refused.

use vstd::prelude::*;

verus! {

/// The sort mode of an invocation that names none.
pub open spec fn default_sort() -> Seq<char> {
    "hot"@
}

/// The seconds between two polls of an invocation that names no interval.
pub const DEFAULT_INTERVAL: u64 = 15;

/// What a well-formed invocation asks for.
#[derive(Debug, PartialEq, Eq)]
pub enum Invocation {
    /// Print the usage and leave.
    Help,
    /// Monitor `source`.
    Run { source: String, sort: String, interval: u64 },
}

/// What an [`Invocation`] holds.
pub enum InvocationView {
    Help,
    Run { source: Seq<char>, sort: Seq<char>, interval: u64 },
}

impl View for Invocation {
    type V = InvocationView;

    open spec fn view(&self) -> InvocationView {
        match self {
            Invocation::Help => InvocationView::Help,
            Invocation::Run { source, sort, interval } => InvocationView::Run {
                source: source@,
                sort: sort@,
                interval: *interval,
            },
        }
    }
}

/// Why an invocation is refused.
#[derive(Debug, Clone, Copy, PartialEq, Eq, Structural)]
pub enum StartupError {
    /// Too few or too many arguments.
    ArgumentCount,
    /// The interval is no number of seconds.
    InvalidInterval,
}

/// Whether `c` is one of the ten decimal digits.
pub open spec fn is_digit(c: char) -> bool {
    '0' <= c <= '9'
}

/// The number that a run of decimal digits writes; leading zeros count for
/// nothing.
pub open spec fn digits_value(digits: Seq<char>) -> nat
    decreases digits.len(),
{
    if digits.len() == 0 {
        0
    } else {
        digits_value(digits.drop_last()) * 10 + (digits.last() as nat - '0' as nat) as nat
    }
}

/// A text without the plus sign that it may start with.
pub open spec fn unsigned_part(text: Seq<char>) -> Seq<char> {
    if text.len() > 0 && text[0] == '+' {
        text.skip(1)
    } else {
        text
    }
}

/// The number of seconds that `text` writes: an optional plus sign, then one
/// or more decimal digits and nothing else, the number no larger than a `u64`
/// holds. Any other text writes none.
pub open spec fn seconds_written(text: Seq<char>) -> Option<u64> {
    let digits = unsigned_part(text);
    if digits.len() > 0 && (forall|i: int| 0 <= i < digits.len() ==> is_digit(#[trigger] digits[i]))
        && digits_value(digits) <= u64::MAX {
        Some(digits_value(digits) as u64)
    } else {
        None
    }
}

/// What the arguments of the process ask for, the program's own name first.
///
/// One to three arguments after the name are accepted. The word `help` in
/// the first place asks for the usage, whatever follows it. Otherwise the
/// first names the source, the second the sort mode and the third the
/// interval; a sort mode or an interval that is left out takes its default,
/// while an interval that is written and is no number is refused.
pub open spec fn invocation_of(args: Seq<Seq<char>>) -> Result<InvocationView, StartupError> {
    if args.len() < 2 || args.len() > 4 {
        Err(StartupError::ArgumentCount)
    } else if args[1] == "help"@ {
        Ok(InvocationView::Help)
    } else {
        let sort = if args.len() >= 3 {
            args[2]
        } else {
            default_sort()
        };
        if args.len() == 4 {
            match seconds_written(args[3]) {
                Some(interval) => Ok(InvocationView::Run { source: args[1], sort, interval }),
                None => Err(StartupError::InvalidInterval),
            }
        } else {
            Ok(InvocationView::Run { source: args[1], sort, interval: DEFAULT_INTERVAL })
        }
    }
}

/// A run of digits writes no less than any of its beginnings.
proof fn lemma_digits_value_grows(digits: Seq<char>, n: int)
    requires
        0 <= n <= digits.len(),
    ensures
        digits_value(digits.take(n)) <= digits_value(digits),
    decreases digits.len() - n,
{
    if n == digits.len() {
        assert(digits.take(n) =~= digits);
    } else {
        lemma_digits_value_grows(digits, n + 1);
        assert(digits.take(n + 1).drop_last() =~= digits.take(n));
    }
}

/// Reads a number of seconds.
pub fn parse_seconds(text: &str) -> (seconds: Option<u64>)
    ensures
        seconds == seconds_written(text@),
{
    let len: usize = text.unicode_len();
    let start: usize = if len > 0 && text.get_char(0) == '+' {
        1
    } else {
        0
    };
    let ghost digits = unsigned_part(text@);
    if start == len {
        return None;
    }
    let mut value: u64 = 0;
    let mut i: usize = start;
    while i < len
        invariant
            start <= i <= len,
            len == text@.len(),
            digits == unsigned_part(text@),
            digits.len() == len - start,
            forall|j: int| 0 <= j < i - start ==> is_digit(#[trigger] digits[j]),
            value == digits_value(digits.take(i - start)),
        decreases len - i,
    {
        let c = text.get_char(i);
        proof {
            lemma_digits_value_grows(digits, i - start + 1);
            assert(digits.take(i - start + 1).drop_last() =~= digits.take(i - start));
        }
        if !(c >= '0' && c <= '9') {
            return None;
        }
        let digit: u64 = (c as u64) - ('0' as u64);
        if value > (u64::MAX - digit) / 10 {
            return None;
        }
        value = value * 10 + digit;
        i += 1;
    }
    assert(digits.take(len - start) =~= digits);
    Some(value)
}

/// What each argument holds, in the same order.
pub open spec fn arg_views(args: Seq<String>) -> Seq<Seq<char>> {
    args.map_values(|a: String| a@)
}

/// What the result of reading the arguments holds.
pub open spec fn parsed_view(parsed: Result<Invocation, StartupError>) -> Result<
    InvocationView,
    StartupError,
> {
    match parsed {
        Ok(invocation) => Ok(invocation@),
        Err(error) => Err(error),
    }
}

/// Reads the arguments of the process, the program's own name first.
pub fn parse_invocation(args: &Vec<String>) -> (parsed: Result<Invocation, StartupError>)
    ensures
        parsed_view(parsed) == invocation_of(arg_views(args@)),
{
    if args.len() < 2 || args.len() > 4 {
        return Err(StartupError::ArgumentCount);
    }
    let help = String::from_str("help");
    if args[1] == help {
        return Ok(Invocation::Help);
    }
    let source = args[1].clone();
    let sort = if args.len() >= 3 {
        args[2].clone()
    } else {
        String::from_str("hot")
    };
    if args.len() == 4 {
        match parse_seconds(args[3].as_str()) {
            Some(interval) => Ok(Invocation::Run { source, sort, interval }),
            None => Err(StartupError::InvalidInterval),
        }
    } else {
        Ok(Invocation::Run { source, sort, interval: DEFAULT_INTERVAL })
    }
}

/// The usage, as the `help` invocation prints it.
pub open spec fn usage_text() -> Seq<char> {
    "Usage: cargo run <subreddit_name> [sort_order] [interval_in_seconds]\nUsage: cargo run help (to display this help message)\n"@
}

/// The usage, as the `help` invocation prints it.
pub fn usage() -> (text: String)
    ensures
        text@ == usage_text(),
{
    String::from_str(
        "Usage: cargo run <subreddit_name> [sort_order] [interval_in_seconds]\nUsage: cargo run help (to display this help message)\n",
    )
}

/// The line that tells why an invocation is refused.
pub open spec fn refusal_text(error: StartupError) -> Seq<char> {
    match error {
        StartupError::ArgumentCount =>
            "Error: Incorrect number of arguments(please use the 'help' command)\n"@,
        StartupError::InvalidInterval => "Error: Invalid value for interval\n"@,
    }
}

impl StartupError {
    /// The line for the error stream.
    pub fn message(&self) -> (text: String)
        ensures
            text@ == refusal_text(*self),
    {
        match self {
            StartupError::ArgumentCount => String::from_str(
                "Error: Incorrect number of arguments(please use the 'help' command)\n",
            ),
            StartupError::InvalidInterval => String::from_str(
                "Error: Invalid value for interval\n",
            ),
        }
    }
}

} // verus!
