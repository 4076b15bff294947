use feedwatch::cli::{parse_invocation, parse_seconds, usage, Invocation, StartupError, DEFAULT_INTERVAL};

fn args(words: &[&str]) -> Vec<String> {
    words.iter().map(|w| w.to_string()).collect()
}

fn run(source: &str, sort: &str, interval: u64) -> Result<Invocation, StartupError> {
    Ok(Invocation::Run { source: source.to_string(), sort: sort.to_string(), interval })
}

#[test]
fn a_source_alone_takes_the_defaults() {
    assert_eq!(DEFAULT_INTERVAL, 15);
    assert_eq!(parse_invocation(&args(&["prog", "rust"])), run("rust", "hot", 15));
}

#[test]
fn sort_and_interval_are_taken_as_written() {
    assert_eq!(parse_invocation(&args(&["prog", "rust", "new"])), run("rust", "new", 15));
    assert_eq!(parse_invocation(&args(&["prog", "test", "hot", "1"])), run("test", "hot", 1));
    assert_eq!(parse_invocation(&args(&["prog", "test", "top", "0"])), run("test", "top", 0));
    assert_eq!(parse_invocation(&args(&["prog", "test", "top", "+30"])), run("test", "top", 30));
    assert_eq!(parse_invocation(&args(&["prog", "test", "", "007"])), run("test", "", 7));
}

#[test]
fn help_asks_for_the_usage() {
    assert_eq!(parse_invocation(&args(&["prog", "help"])), Ok(Invocation::Help));
    assert_eq!(parse_invocation(&args(&["prog", "help", "new"])), Ok(Invocation::Help));
    assert_eq!(parse_invocation(&args(&["prog", "help", "new", "abc"])), Ok(Invocation::Help));
    // Only in the first place.
    assert_eq!(parse_invocation(&args(&["prog", "rust", "help"])), run("rust", "help", 15));
    assert_eq!(
        usage(),
        "Usage: cargo run <subreddit_name> [sort_order] [interval_in_seconds]\nUsage: cargo run help (to display this help message)\n"
    );
}

#[test]
fn a_wrong_number_of_arguments_is_refused() {
    assert_eq!(parse_invocation(&args(&[])), Err(StartupError::ArgumentCount));
    assert_eq!(parse_invocation(&args(&["prog"])), Err(StartupError::ArgumentCount));
    assert_eq!(
        parse_invocation(&args(&["prog", "rust", "hot", "15", "more"])),
        Err(StartupError::ArgumentCount)
    );
    assert_eq!(
        parse_invocation(&args(&["prog", "help", "a", "b", "c"])),
        Err(StartupError::ArgumentCount)
    );
    assert_eq!(
        StartupError::ArgumentCount.message(),
        "Error: Incorrect number of arguments(please use the 'help' command)\n"
    );
}

#[test]
fn an_interval_that_is_no_number_is_refused() {
    for bad in ["abc", "", "+", "-5", "1.5", " 15", "15 ", "1_000", "++1", "0x10", "١٢"] {
        assert_eq!(
            parse_invocation(&args(&["prog", "rust", "hot", bad])),
            Err(StartupError::InvalidInterval),
            "{:?}",
            bad
        );
    }
    assert_eq!(StartupError::InvalidInterval.message(), "Error: Invalid value for interval\n");
}

#[test]
fn seconds_are_read_as_the_standard_library_reads_them() {
    let samples = [
        "0", "15", "+15", "00015", "18446744073709551615", "18446744073709551616",
        "+18446744073709551615", "99999999999999999999999", "", "+", "-", "-0", "+-1", "12a",
        "a12", "1 2", "٣", "1e3", "000000000000000000000000000001",
    ];
    for text in samples {
        assert_eq!(parse_seconds(text), text.parse::<u64>().ok(), "{:?}", text);
    }
    assert_eq!(parse_seconds("15"), Some(15));
    assert_eq!(parse_seconds("18446744073709551615"), Some(u64::MAX));
    assert_eq!(parse_seconds("18446744073709551616"), None);
}
