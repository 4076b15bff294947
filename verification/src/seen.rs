//! The record of entries already reported, and the rule that tells the new
//! entries of a listing from the known ones.

use crate::entry::{views, Entry, EntryView};
use vstd::hash_map::StringHashMap;
use vstd::prelude::*;

verus! {

/// What the record holds: for each title seen so far, the creation time and
/// the link of the entry that was first seen under it.
pub type Seen = Map<Seq<char>, (i64, Seq<char>)>;

/// The titles of a listing, in its order.
pub open spec fn title_seq(feed: Seq<EntryView>) -> Seq<Seq<char>> {
    feed.map_values(|e: EntryView| e.title)
}

/// The titles that occur in a listing.
pub open spec fn titles(feed: Seq<EntryView>) -> Set<Seq<char>> {
    title_seq(feed).to_set()
}

/// The entries of `feed` that are new to a monitor that has seen the titles
/// `seen`: those whose title is neither in `seen` nor borne by an earlier
/// entry of the same listing, in the order of the listing.
pub open spec fn fresh(seen: Set<Seq<char>>, feed: Seq<EntryView>) -> Seq<EntryView>
    decreases feed.len(),
{
    if feed.len() == 0 {
        Seq::empty()
    } else {
        let earlier = feed.drop_last();
        let e = feed.last();
        if seen.contains(e.title) || titles(earlier).contains(e.title) {
            fresh(seen, earlier)
        } else {
            fresh(seen, earlier).push(e)
        }
    }
}

/// The record after a monitor that held `seen` has gone through `feed`: each
/// title that was missing is added, with the creation time and the link of
/// the first entry of the listing that bears it; nothing else changes.
pub open spec fn absorbed(seen: Seen, feed: Seq<EntryView>) -> Seen
    decreases feed.len(),
{
    if feed.len() == 0 {
        seen
    } else {
        let before = absorbed(seen, feed.drop_last());
        let e = feed.last();
        if before.contains_key(e.title) {
            before
        } else {
            before.insert(e.title, (e.created_at, e.link))
        }
    }
}

/// The titles that occur in a listing are those of its entries.
pub proof fn lemma_titles_contains(feed: Seq<EntryView>, title: Seq<char>)
    ensures
        titles(feed).contains(title) <==> exists|i: int|
            0 <= i < feed.len() && (#[trigger] feed[i]).title == title,
{
    let ts = title_seq(feed);
    if exists|i: int| 0 <= i < feed.len() && (#[trigger] feed[i]).title == title {
        let i = choose|i: int| 0 <= i < feed.len() && (#[trigger] feed[i]).title == title;
        assert(ts[i] == title);
    }
}

/// One more entry adds its title to those of the listing.
pub proof fn lemma_titles_push(feed: Seq<EntryView>, e: EntryView)
    ensures
        titles(feed.push(e)) == titles(feed).insert(e.title),
{
    let longer = feed.push(e);
    assert forall|t: Seq<char>| titles(longer).contains(t) <==> titles(feed).insert(
        e.title,
    ).contains(t) by {
        lemma_titles_contains(longer, t);
        lemma_titles_contains(feed, t);
        if titles(feed).contains(t) {
            let i = choose|i: int| 0 <= i < feed.len() && (#[trigger] feed[i]).title == t;
            assert(longer[i].title == t);
        }
        if t == e.title {
            assert(longer[feed.len() as int].title == t);
        }
    }
}

/// Going through a listing adds exactly its titles to the record.
pub proof fn lemma_absorbed_titles(seen: Seen, feed: Seq<EntryView>)
    ensures
        absorbed(seen, feed).dom() == seen.dom().union(titles(feed)),
    decreases feed.len(),
{
    if feed.len() > 0 {
        let earlier = feed.drop_last();
        lemma_absorbed_titles(seen, earlier);
        lemma_titles_push(earlier, feed.last());
        assert(earlier.push(feed.last()) =~= feed);
    }
}

/// The entries already reported, by title.
pub struct SeenSet {
    table: StringHashMap<(i64, String)>,
}

impl View for SeenSet {
    type V = Seen;

    closed spec fn view(&self) -> Seen {
        self.table@.map_values(|v: (i64, String)| (v.0, v.1@))
    }
}

impl SeenSet {
    /// A record that holds nothing.
    pub fn new() -> (seen: SeenSet)
        ensures
            seen@ == Seen::empty(),
    {
        let seen = SeenSet { table: StringHashMap::new() };
        seen
    }

    /// Whether an entry was seen under `title`.
    pub fn contains(&self, title: &str) -> (known: bool)
        ensures
            known == self@.contains_key(title@),
    {
        self.table.contains_key(title)
    }

    /// The creation time and the link that were recorded under `title`.
    pub fn get(&self, title: &str) -> (found: Option<(i64, String)>)
        ensures
            found is Some <==> self@.contains_key(title@),
            found matches Some(v) ==> self@[title@] == (v.0, v.1@),
    {
        match self.table.get(title) {
            Some(v) => Some((v.0, v.1.clone())),
            None => None,
        }
    }

    /// How many titles the record holds.
    pub fn len(&self) -> (n: usize)
        ensures
            n == self@.len(),
    {
        assert(self@.dom() =~= self.table@.dom());
        self.table.len()
    }

    /// Records `entry` unless its title is known, and says whether it was
    /// new.
    pub fn record(&mut self, entry: &Entry) -> (is_new: bool)
        ensures
            is_new == !old(self)@.contains_key(entry@.title),
            is_new ==> final(self)@ == old(self)@.insert(
                entry@.title,
                (entry@.created_at, entry@.link),
            ),
            !is_new ==> final(self)@ == old(self)@,
    {
        if self.table.contains_key(entry.title()) {
            false
        } else {
            let title = String::from_str(entry.title());
            let link = String::from_str(entry.link());
            self.table.insert(title, (entry.created_at(), link));
            true
        }
    }

    /// Goes through a listing in its order: records every entry whose title
    /// is not known yet and returns those entries, in the order of the
    /// listing.
    pub fn observe(&mut self, feed: &Vec<Entry>) -> (news: Vec<Entry>)
        ensures
            final(self)@ == absorbed(old(self)@, views(feed@)),
            views(news@) == fresh(old(self)@.dom(), views(feed@)),
    {
        let ghost start = self@;
        let ghost listing = views(feed@);
        let mut news: Vec<Entry> = Vec::new();
        let mut i: usize = 0;
        while i < feed.len()
            invariant
                i <= feed.len(),
                listing == views(feed@),
                self@ == absorbed(start, listing.take(i as int)),
                views(news@) == fresh(start.dom(), listing.take(i as int)),
            decreases feed.len() - i,
        {
            let entry = &feed[i];
            proof {
                assert(listing.take(i + 1).drop_last() =~= listing.take(i as int));
                lemma_absorbed_titles(start, listing.take(i as int));
            }
            let is_new = self.record(entry);
            if is_new {
                news.push(entry.clone());
            }
            i += 1;
        }
        assert(listing.take(feed.len() as int) =~= listing);
        news
    }
}

} // verus!
