use feedwatch::entry::Entry;
use feedwatch::fetch::FetchError;
use feedwatch::monitor::{Monitor, Phase};
use feedwatch::report::CycleReport;

const SECOND: u128 = 1_000_000_000;

fn entry(title: &str) -> Entry {
    let link = format!("https://www.reddit.com/r/test/comments/{}/", title);
    Entry::new(title.to_string(), 1_700_000_000, link).unwrap()
}

fn block(title: &str) -> String {
    format!(
        "Title: {}\nCreation Date (UTC): 2023-11-14 22:13:20 UTC\nLink: https://www.reddit.com/r/test/comments/{}/\n\n",
        title, title
    )
}

fn titles(report: &CycleReport) -> Vec<String> {
    match report {
        CycleReport::Listed(news) => news.iter().map(|e| e.title().to_string()).collect(),
        CycleReport::Failed(_) => panic!("the cycle failed"),
    }
}

fn poll(monitor: &mut Monitor, now: u128, feed: Vec<Entry>) -> CycleReport {
    assert!(monitor.tick(now).is_some());
    monitor.complete(Ok(feed))
}

#[test]
fn end_to_end_three_cycles() {
    let mut monitor = Monitor::new("test".to_string(), "hot".to_string(), 1, 0);
    assert_eq!(monitor.tick(SECOND - 1), None);

    let url = monitor.tick(SECOND);
    assert_eq!(url, Some("https://www.reddit.com/r/test/hot/.json".to_string()));
    let first = monitor.complete(Ok(vec![entry("A"), entry("B")]));
    assert_eq!(titles(&first), vec!["A".to_string(), "B".to_string()]);
    assert_eq!(first.output(), format!("{}{}", block("A"), block("B")));
    assert!(!first.output().contains("No new posts detected."));
    assert_eq!(first.error_output(), "");

    let second = poll(&mut monitor, 2 * SECOND, vec![entry("A"), entry("B"), entry("C")]);
    assert_eq!(titles(&second), vec!["C".to_string()]);
    assert_eq!(second.output(), block("C"));

    let third = poll(&mut monitor, 3 * SECOND, vec![entry("A"), entry("B"), entry("C")]);
    assert!(!third.has_news());
    assert_eq!(third.output(), "No new posts detected.\n");
    assert_eq!(third.output().trim_end(), "No new posts detected.");
    assert_eq!(third.error_output(), "");
}

#[test]
fn each_title_is_reported_once_over_many_cycles() {
    let mut monitor = Monitor::new("test".to_string(), "new".to_string(), 0, 0);
    let feeds: Vec<Vec<&str>> = vec![
        vec!["a", "b"],
        vec!["b", "c", "a"],
        vec![],
        vec!["d", "d", "a"],
        vec!["c", "e", "d", "e"],
    ];
    let mut told: Vec<String> = Vec::new();
    for (n, feed) in feeds.iter().enumerate() {
        let listing: Vec<Entry> = feed.iter().map(|t| entry(t)).collect();
        let report = poll(&mut monitor, n as u128 * SECOND, listing);
        told.extend(titles(&report));
    }
    assert_eq!(told, vec!["a", "b", "c", "d", "e"]);
    assert_eq!(monitor.seen().len(), 5);
}

#[test]
fn a_growing_snapshot_reports_exactly_the_additions() {
    let mut monitor = Monitor::new("test".to_string(), "hot".to_string(), 5, 0);
    let first = poll(&mut monitor, 5 * SECOND, vec![entry("a"), entry("b"), entry("c")]);
    assert_eq!(titles(&first).len(), 3);
    let next = vec![entry("x"), entry("a"), entry("y"), entry("b"), entry("c"), entry("z")];
    let second = poll(&mut monitor, 10 * SECOND, next);
    assert_eq!(titles(&second), vec!["x", "y", "z"]);
    let last = vec![entry("x"), entry("a"), entry("y"), entry("b"), entry("c"), entry("z")];
    let third = poll(&mut monitor, 15 * SECOND, last);
    assert_eq!(titles(&third).len(), 0);
}

#[test]
fn an_identical_snapshot_changes_nothing() {
    let mut monitor = Monitor::new("test".to_string(), "hot".to_string(), 1, 0);
    poll(&mut monitor, SECOND, vec![entry("a"), entry("b")]);
    let found = monitor.seen().get("a");
    let size = monitor.seen().len();
    let again = poll(&mut monitor, 2 * SECOND, vec![entry("a"), entry("b")]);
    assert_eq!(again, CycleReport::Listed(vec![]));
    assert_eq!(again.output(), "No new posts detected.\n");
    assert_eq!(monitor.seen().len(), size);
    assert_eq!(monitor.seen().get("a"), found);
    assert_eq!(
        monitor.seen().get("b"),
        Some((1_700_000_000, "https://www.reddit.com/r/test/comments/b/".to_string()))
    );
}

#[test]
fn a_failed_fetch_leaves_the_record_alone() {
    let mut monitor = Monitor::new("test".to_string(), "hot".to_string(), 1, 0);
    poll(&mut monitor, SECOND, vec![entry("a")]);

    assert!(monitor.tick(2 * SECOND).is_some());
    let failed = monitor.complete(Err(FetchError::Transport("connection refused".to_string())));
    assert_eq!(failed, CycleReport::Failed(FetchError::Transport("connection refused".to_string())));
    assert_eq!(failed.output(), "");
    assert_eq!(failed.error_output(), "Error: connection refused\n");
    assert!(!failed.has_news());
    assert_eq!(monitor.seen().len(), 1);
    assert!(monitor.seen().contains("a"));
    assert_eq!(monitor.phase(), Phase::Idle);

    let after = poll(&mut monitor, 3 * SECOND, vec![entry("a"), entry("b")]);
    assert_eq!(titles(&after), vec!["b"]);
}

#[test]
fn a_failure_in_the_first_cycle_swallows_nothing() {
    let mut monitor = Monitor::new("test".to_string(), "hot".to_string(), 1, 0);
    assert!(monitor.tick(SECOND).is_some());
    monitor.complete(Err(FetchError::unreadable_body()));
    assert_eq!(monitor.seen().len(), 0);
    let report = poll(&mut monitor, 2 * SECOND, vec![entry("a"), entry("b")]);
    assert_eq!(titles(&report), vec!["a", "b"]);
}

#[test]
fn the_first_entry_under_a_title_is_the_one_kept() {
    let mut monitor = Monitor::new("test".to_string(), "hot".to_string(), 1, 0);
    let one = Entry::new("same".to_string(), 10, "https://www.reddit.com/one".to_string()).unwrap();
    let two = Entry::new("same".to_string(), 20, "https://www.reddit.com/two".to_string()).unwrap();
    let report = poll(&mut monitor, SECOND, vec![one.clone(), two]);
    assert_eq!(report, CycleReport::Listed(vec![one]));
    assert_eq!(
        monitor.seen().get("same"),
        Some((10, "https://www.reddit.com/one".to_string()))
    );
    let three = Entry::new("same".to_string(), 30, "https://www.reddit.com/three".to_string()).unwrap();
    let later = poll(&mut monitor, 2 * SECOND, vec![three]);
    assert_eq!(later.output(), "No new posts detected.\n");
    assert_eq!(
        monitor.seen().get("same"),
        Some((10, "https://www.reddit.com/one".to_string()))
    );
}

#[test]
fn an_empty_listing_is_nothing_new() {
    let mut monitor = Monitor::new("test".to_string(), "hot".to_string(), 1, 0);
    let report = poll(&mut monitor, SECOND, vec![]);
    assert_eq!(report.output(), "No new posts detected.\n");
    assert_eq!(monitor.seen().len(), 0);
}

#[test]
fn a_new_monitor_is_idle_and_has_seen_nothing() {
    let monitor = Monitor::new("rust".to_string(), "top".to_string(), 15, 7 * SECOND);
    assert_eq!(monitor.source(), "rust");
    assert_eq!(monitor.sort(), "top");
    assert_eq!(monitor.interval(), 15);
    assert_eq!(monitor.last_poll(), 7 * SECOND);
    assert_eq!(monitor.phase(), Phase::Idle);
    assert_eq!(monitor.seen().len(), 0);
    assert!(!monitor.seen().contains("a"));
    assert_eq!(monitor.seen().get("a"), None);
}

#[test]
fn no_poll_before_the_interval_has_passed() {
    let mut monitor = Monitor::new("test".to_string(), "hot".to_string(), 15, 100 * SECOND);
    assert!(!monitor.is_due(100 * SECOND));
    assert!(!monitor.is_due(115 * SECOND - 1));
    assert!(monitor.is_due(115 * SECOND));
    assert_eq!(monitor.tick(114 * SECOND), None);
    assert_eq!(monitor.phase(), Phase::Idle);
    assert_eq!(monitor.last_poll(), 100 * SECOND);
    assert!(monitor.tick(115 * SECOND).is_some());
    assert_eq!(monitor.phase(), Phase::Polling);
    assert_eq!(monitor.last_poll(), 115 * SECOND);
}

#[test]
fn the_timer_is_reset_when_the_poll_starts() {
    let mut monitor = Monitor::new("test".to_string(), "hot".to_string(), 10, 0);
    assert!(monitor.tick(10 * SECOND).is_some());
    // The fetch takes four seconds; they count towards the next interval.
    monitor.complete(Ok(vec![entry("a")]));
    assert_eq!(monitor.last_poll(), 10 * SECOND);
    assert!(!monitor.is_due(14 * SECOND));
    assert!(!monitor.is_due(20 * SECOND - 1));
    assert!(monitor.is_due(20 * SECOND));
}

#[test]
fn no_second_poll_while_one_is_under_way() {
    let mut monitor = Monitor::new("test".to_string(), "hot".to_string(), 1, 0);
    assert!(monitor.tick(SECOND).is_some());
    assert!(!monitor.is_due(100 * SECOND));
    assert_eq!(monitor.tick(100 * SECOND), None);
    assert_eq!(monitor.phase(), Phase::Polling);
    assert_eq!(monitor.last_poll(), SECOND);
    monitor.complete(Ok(vec![]));
    assert!(monitor.is_due(100 * SECOND));
}

#[test]
fn an_interval_of_zero_is_always_due() {
    let mut monitor = Monitor::new("test".to_string(), "hot".to_string(), 0, 5 * SECOND);
    assert!(monitor.is_due(5 * SECOND));
    // A clock that has gone backwards counts as no time passed.
    assert!(monitor.is_due(SECOND));
    assert!(monitor.tick(SECOND).is_some());
    assert_eq!(monitor.last_poll(), SECOND);
}

#[test]
fn a_clock_gone_backwards_is_not_due() {
    let monitor = Monitor::new("test".to_string(), "hot".to_string(), 1, 5 * SECOND);
    assert!(!monitor.is_due(0));
}
