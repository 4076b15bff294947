//! What holds of the monitor whatever the feed brings, proved from the
//! definitions that the contracts of the monitor are stated in.

use crate::entry::EntryView;
use crate::fetch::FetchErrorView;
use crate::monitor::{completed, due, report_of, seen_after, started, whole_seconds_between, MonitorView, Outcome};
use crate::report::{nothing_new_text, output_text, ReportView};
use crate::seen::{
    absorbed, fresh, lemma_absorbed_titles, lemma_titles_contains, lemma_titles_push, title_seq,
    titles, Seen,
};
use vstd::prelude::*;

verus! {

/// Whether the entry at `i` is the first that a monitor which has seen the
/// titles `seen` meets under its title while it goes through `feed`.
pub open spec fn first_sighting(seen: Set<Seq<char>>, feed: Seq<EntryView>, i: int) -> bool {
    &&& 0 <= i < feed.len()
    &&& !seen.contains(feed[i].title)
    &&& forall|j: int| 0 <= j < i ==> (#[trigger] feed[j]).title != feed[i].title
}

/// The record after a run of cycles, the first outcome first.
pub open spec fn seen_after_all(seen: Seen, outcomes: Seq<Outcome>) -> Seen
    decreases outcomes.len(),
{
    if outcomes.len() == 0 {
        seen
    } else {
        seen_after(seen_after_all(seen, outcomes.drop_last()), outcomes.last())
    }
}

/// The entries that one cycle reports as new.
pub open spec fn news_of(seen: Seen, outcome: Outcome) -> Seq<EntryView> {
    match outcome {
        Ok(feed) => fresh(seen.dom(), feed),
        Err(_) => Seq::empty(),
    }
}

/// Every entry that a run of cycles reports as new, in the order of the
/// reports.
pub open spec fn reported(seen: Seen, outcomes: Seq<Outcome>) -> Seq<EntryView>
    decreases outcomes.len(),
{
    if outcomes.len() == 0 {
        Seq::empty()
    } else {
        reported(seen, outcomes.drop_last()) + news_of(
            seen_after_all(seen, outcomes.drop_last()),
            outcomes.last(),
        )
    }
}

/// A run of cycles in which every fetch brings a listing.
pub open spec fn all_listed(snapshots: Seq<Seq<EntryView>>) -> Seq<Outcome> {
    snapshots.map_values(|feed: Seq<EntryView>| Ok::<Seq<EntryView>, FetchErrorView>(feed))
}

/// The place in `feed` that the new entry at `k` comes from.
pub open spec fn place_of(seen: Set<Seq<char>>, feed: Seq<EntryView>, k: int) -> int
    decreases feed.len(),
{
    if feed.len() == 0 {
        0
    } else if k < fresh(seen, feed.drop_last()).len() {
        place_of(seen, feed.drop_last(), k)
    } else {
        feed.len() - 1
    }
}

/// A first sighting stays one when the listing goes on, and the first
/// sightings of a listing but for its last place are those of the listing
/// without its last entry.
proof fn lemma_first_sighting_earlier(seen: Set<Seq<char>>, feed: Seq<EntryView>, i: int)
    requires
        feed.len() > 0,
    ensures
        first_sighting(seen, feed.drop_last(), i) <==> first_sighting(seen, feed, i) && i
            < feed.len() - 1,
{
    let earlier = feed.drop_last();
    if first_sighting(seen, earlier, i) {
        assert forall|j: int| 0 <= j < i implies (#[trigger] feed[j]).title != feed[i].title by {
            assert(feed[j] == earlier[j]);
        }
    }
    if first_sighting(seen, feed, i) && i < feed.len() - 1 {
        assert forall|j: int| 0 <= j < i implies (#[trigger] earlier[j]).title
            != earlier[i].title by {}
    }
}

/// The last entry of a listing is new exactly when it is a first sighting.
proof fn lemma_first_sighting_last(seen: Set<Seq<char>>, feed: Seq<EntryView>)
    requires
        feed.len() > 0,
    ensures
        first_sighting(seen, feed, feed.len() - 1) <==> !(seen.contains(feed.last().title)
            || titles(feed.drop_last()).contains(feed.last().title)),
{
    let earlier = feed.drop_last();
    let e = feed.last();
    let last = feed.len() - 1;
    lemma_titles_contains(earlier, e.title);
    if !seen.contains(e.title) && !titles(earlier).contains(e.title) {
        assert forall|j: int| 0 <= j < last implies (#[trigger] feed[j]).title
            != feed[last].title by {
            assert(feed[j] == earlier[j]);
        }
    }
}

/// Every new entry of a listing is an entry of that listing, and a first
/// sighting there.
pub proof fn law_fresh_are_first_sightings(seen: Set<Seq<char>>, feed: Seq<EntryView>, k: int)
    requires
        0 <= k < fresh(seen, feed).len(),
    ensures
        first_sighting(seen, feed, place_of(seen, feed, k)),
        feed[place_of(seen, feed, k)] == fresh(seen, feed)[k],
    decreases feed.len(),
{
    let earlier = feed.drop_last();
    if k < fresh(seen, earlier).len() {
        law_fresh_are_first_sightings(seen, earlier, k);
        lemma_first_sighting_earlier(seen, feed, place_of(seen, earlier, k));
    } else {
        lemma_first_sighting_last(seen, feed);
    }
}

/// Every first sighting of a listing is among its new entries.
pub proof fn law_first_sightings_are_fresh(seen: Set<Seq<char>>, feed: Seq<EntryView>, i: int)
    requires
        first_sighting(seen, feed, i),
    ensures
        exists|k: int| 0 <= k < fresh(seen, feed).len() && place_of(seen, feed, k) == i,
    decreases feed.len(),
{
    let earlier = feed.drop_last();
    if i < feed.len() - 1 {
        lemma_first_sighting_earlier(seen, feed, i);
        law_first_sightings_are_fresh(seen, earlier, i);
        let k = choose|k: int| 0 <= k < fresh(seen, earlier).len() && place_of(seen, earlier, k) == i;
        assert(place_of(seen, feed, k) == i);
    } else {
        lemma_first_sighting_last(seen, feed);
        assert(place_of(seen, feed, fresh(seen, earlier).len() as int) == i);
    }
}

/// The new entries of a listing stand in the order of the listing: a later
/// one comes from a later place.
pub proof fn law_fresh_keep_order(seen: Set<Seq<char>>, feed: Seq<EntryView>, k: int, l: int)
    requires
        0 <= k < l < fresh(seen, feed).len(),
    ensures
        place_of(seen, feed, k) < place_of(seen, feed, l),
    decreases feed.len(),
{
    let earlier = feed.drop_last();
    if l < fresh(seen, earlier).len() {
        law_fresh_keep_order(seen, earlier, k, l);
    } else {
        law_fresh_are_first_sightings(seen, earlier, k);
    }
}

/// The titles of two listings put together are those of the one and those
/// of the other.
proof fn lemma_titles_concat(a: Seq<EntryView>, b: Seq<EntryView>)
    ensures
        title_seq(a + b) == title_seq(a) + title_seq(b),
        titles(a + b) == titles(a).union(titles(b)),
    decreases b.len(),
{
    if b.len() > 0 {
        lemma_titles_concat(a, b.drop_last());
        lemma_titles_push(a + b.drop_last(), b.last());
        lemma_titles_push(b.drop_last(), b.last());
        assert(b.drop_last().push(b.last()) =~= b);
    }
}

/// No two new entries of a listing share a title, and their titles are
/// those of the listing that were not seen before.
pub proof fn law_fresh_titles(seen: Set<Seq<char>>, feed: Seq<EntryView>)
    ensures
        title_seq(fresh(seen, feed)).no_duplicates(),
        titles(fresh(seen, feed)) == titles(feed).difference(seen),
    decreases feed.len(),
{
    if feed.len() > 0 {
        let earlier = feed.drop_last();
        let e = feed.last();
        law_fresh_titles(seen, earlier);
        lemma_titles_push(earlier, e);
        assert(earlier.push(e) =~= feed);
        let old_news = fresh(seen, earlier);
        if !(seen.contains(e.title) || titles(earlier).contains(e.title)) {
            lemma_titles_push(old_news, e);
            let ts = title_seq(old_news.push(e));
            assert(ts =~= title_seq(old_news).push(e.title));
            assert forall|i: int, j: int| 0 <= i < ts.len() && 0 <= j < ts.len() && i != j implies ts[i]
                != ts[j] by {
                if i < old_news.len() && j == old_news.len() {
                    assert(titles(old_news).contains(ts[i]));
                } else if j < old_news.len() && i == old_news.len() {
                    assert(titles(old_news).contains(ts[j]));
                }
            }
        }
    }
}

/// A cycle reports as many entries as its listing holds titles that were
/// not seen before.
pub proof fn law_fresh_count(seen: Set<Seq<char>>, feed: Seq<EntryView>)
    ensures
        fresh(seen, feed).len() == titles(feed).difference(seen).len(),
{
    law_fresh_titles(seen, feed);
    title_seq(fresh(seen, feed)).unique_seq_to_set();
}

/// Going through a listing takes nothing from the record and changes
/// nothing that it held.
proof fn lemma_absorbed_grows(seen: Seen, feed: Seq<EntryView>)
    ensures
        seen.submap_of(absorbed(seen, feed)),
    decreases feed.len(),
{
    if feed.len() > 0 {
        lemma_absorbed_grows(seen, feed.drop_last());
    }
}

/// The record only grows: what it holds under a title stays there, the
/// same, whatever a cycle brings.
pub proof fn law_record_only_grows(seen: Seen, outcome: Outcome)
    ensures
        seen.submap_of(seen_after(seen, outcome)),
{
    match outcome {
        Ok(feed) => {
            lemma_absorbed_grows(seen, feed);
        },
        Err(_) => {},
    }
}

/// What the record holds under a title that a listing has brought to it is
/// the creation time and the link of the first entry of the listing with
/// that title.
pub proof fn law_record_keeps_first(seen: Seen, feed: Seq<EntryView>, i: int)
    requires
        first_sighting(seen.dom(), feed, i),
    ensures
        absorbed(seen, feed).contains_key(feed[i].title),
        absorbed(seen, feed)[feed[i].title] == (feed[i].created_at, feed[i].link),
    decreases feed.len(),
{
    let earlier = feed.drop_last();
    lemma_absorbed_titles(seen, earlier);
    if i < feed.len() - 1 {
        lemma_first_sighting_earlier(seen.dom(), feed, i);
        law_record_keeps_first(seen, earlier, i);
    } else {
        lemma_first_sighting_last(seen.dom(), feed);
    }
}

/// The record after a run of cycles holds the titles it held before and
/// those that the run has reported; the run reports no title twice, and none
/// that the record held before.
pub proof fn law_reported_once(seen: Seen, outcomes: Seq<Outcome>)
    ensures
        title_seq(reported(seen, outcomes)).no_duplicates(),
        titles(reported(seen, outcomes)).disjoint(seen.dom()),
        seen_after_all(seen, outcomes).dom() == seen.dom().union(
            titles(reported(seen, outcomes)),
        ),
    decreases outcomes.len(),
{
    if outcomes.len() > 0 {
        let before = outcomes.drop_last();
        law_reported_once(seen, before);
        let told = reported(seen, before);
        let known = seen_after_all(seen, before);
        let news = news_of(known, outcomes.last());
        lemma_titles_concat(told, news);
        match outcomes.last() {
            Ok(feed) => {
                law_fresh_titles(known.dom(), feed);
                lemma_absorbed_titles(known, feed);
            },
            Err(_) => {},
        }
        assert forall|i: int, j: int| 0 <= i < told.len() && 0 <= j < news.len() implies title_seq(
            told,
        )[i] != title_seq(news)[j] by {
            assert(titles(news).contains(title_seq(news)[j]));
        }
        vstd::seq_lib::lemma_no_dup_in_concat(title_seq(told), title_seq(news));
        assert(seen_after_all(seen, outcomes).dom() =~= seen.dom().union(
            titles(reported(seen, outcomes)),
        ));
    }
}

/// The record of a monitor that has gone through a run of listings, each
/// holding at least the titles of the one before it, holds the titles of the
/// last of them, provided that it started with no title that the first
/// listing lacks.
proof fn lemma_growing_snapshots_seen(seen: Seen, snapshots: Seq<Seq<EntryView>>, n: int)
    requires
        0 <= n < snapshots.len(),
        seen.dom().subset_of(titles(snapshots[0])),
        forall|i: int|
            0 <= i < snapshots.len() - 1 ==> titles(#[trigger] snapshots[i]).subset_of(
                titles(snapshots[i + 1]),
            ),
    ensures
        seen_after_all(seen, all_listed(snapshots.take(n + 1))).dom() == titles(snapshots[n]),
    decreases n,
{
    let run = all_listed(snapshots.take(n + 1));
    assert(run.drop_last() =~= all_listed(snapshots.take(n)));
    let known = seen_after_all(seen, run.drop_last());
    lemma_absorbed_titles(known, snapshots[n]);
    if n > 0 {
        lemma_growing_snapshots_seen(seen, snapshots, n - 1);
    }
}

/// Where each listing of a run holds the titles of the one before it and
/// some more, the cycle that takes a listing reports as many entries as the
/// listing holds titles that the one before it lacked. The monitor may start
/// with an empty record, or with any that holds no title that the first
/// listing lacks.
pub proof fn law_growing_snapshots(seen: Seen, snapshots: Seq<Seq<EntryView>>, n: int)
    requires
        0 <= n < snapshots.len() - 1,
        seen.dom().subset_of(titles(snapshots[0])),
        forall|i: int|
            0 <= i < snapshots.len() - 1 ==> titles(#[trigger] snapshots[i]).subset_of(
                titles(snapshots[i + 1]),
            ),
    ensures
        news_of(
            seen_after_all(seen, all_listed(snapshots.take(n + 1))),
            Ok(snapshots[n + 1]),
        ).len() == titles(snapshots[n + 1]).difference(titles(snapshots[n])).len(),
{
    lemma_growing_snapshots_seen(seen, snapshots, n);
    law_fresh_count(titles(snapshots[n]), snapshots[n + 1]);
}

/// A listing that comes a second time in a row brings nothing new: the
/// cycle reports no entry, writes the one notice, and leaves the record as
/// the first time left it.
pub proof fn law_repeated_snapshot(seen: Seen, feed: Seq<EntryView>)
    ensures
        report_of(seen_after(seen, Ok(feed)), Ok(feed)) == ReportView::Listed(Seq::empty()),
        output_text(report_of(seen_after(seen, Ok(feed)), Ok(feed))) == nothing_new_text(),
        seen_after(seen_after(seen, Ok(feed)), Ok(feed)) == seen_after(seen, Ok(feed)),
{
    let known = absorbed(seen, feed);
    lemma_absorbed_titles(seen, feed);
    law_fresh_count(known.dom(), feed);
    assert(titles(feed).difference(known.dom()) =~= Set::empty());
    assert(fresh(known.dom(), feed) =~= Seq::empty());
    lemma_absorbed_known(known, feed);
}

/// Going through a listing whose titles are all known changes nothing.
proof fn lemma_absorbed_known(seen: Seen, feed: Seq<EntryView>)
    requires
        titles(feed).subset_of(seen.dom()),
    ensures
        absorbed(seen, feed) == seen,
    decreases feed.len(),
{
    if feed.len() > 0 {
        let earlier = feed.drop_last();
        lemma_titles_push(earlier, feed.last());
        assert(earlier.push(feed.last()) =~= feed);
        lemma_absorbed_known(seen, earlier);
    }
}

/// A failed fetch leaves no trace: the record is as it was, and so the next
/// cycle reports what it would have reported had the failure not occurred.
pub proof fn law_failure_leaves_no_trace(seen: Seen, error: FetchErrorView, next: Outcome)
    ensures
        seen_after(seen, Err(error)) == seen,
        report_of(seen_after(seen, Err(error)), next) == report_of(seen, next),
        seen_after(seen_after(seen, Err(error)), next) == seen_after(seen, next),
{
}

/// The same of a whole run: a failed cycle, wherever it stands in the run,
/// changes neither the record that the run leaves nor what the run reports.
pub proof fn law_failed_cycle_can_be_left_out(
    seen: Seen,
    before: Seq<Outcome>,
    error: FetchErrorView,
    after: Seq<Outcome>,
)
    ensures
        seen_after_all(seen, before.push(Err(error)) + after) == seen_after_all(
            seen,
            before + after,
        ),
        reported(seen, before.push(Err(error)) + after) == reported(seen, before + after),
    decreases after.len(),
{
    let failed: Outcome = Err(error);
    let with = before.push(failed) + after;
    let without = before + after;
    if after.len() == 0 {
        assert(with.drop_last() =~= before);
    } else {
        law_failed_cycle_can_be_left_out(seen, before, error, after.drop_last());
        assert(with.drop_last() =~= before.push(failed) + after.drop_last());
        assert(without.drop_last() =~= before + after.drop_last());
    }
}

/// Polls keep their distance. While a fetch is under way no poll is due.
/// Once it has ended, however it ended, the next poll is due exactly when
/// the interval has passed since the fetch started: the time that the fetch
/// took counts towards the interval.
pub proof fn law_polls_keep_their_distance(
    m: MonitorView,
    start: u128,
    outcome: Outcome,
    now: u128,
)
    requires
        due(m, start),
    ensures
        !due(started(m, start), now),
        due(completed(started(m, start), outcome), now) <==> whole_seconds_between(start, now)
            >= m.interval,
{
}

} // verus!
