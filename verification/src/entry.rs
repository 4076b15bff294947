//! Feed items: as the feed supplies them, and as the monitor keeps them.

use crate::instant::{is_renderable, render_utc, utc_text};
use vstd::prelude::*;

verus! {

/// The origin that every relative permalink of the feed is resolved against.
pub open spec fn origin() -> Seq<char> {
    "https://www.reddit.com"@
}

/// The absolute link of the item whose relative permalink is `permalink`.
pub open spec fn absolute_link(permalink: Seq<char>) -> Seq<char> {
    origin() + permalink
}

/// Resolves a relative permalink against the feed's origin.
pub fn make_link(permalink: &str) -> (link: String)
    ensures
        link@ == absolute_link(permalink@),
{
    let mut link = String::from_str("https://www.reddit.com");
    link.append(permalink);
    link
}

/// One item of a listing as the feed supplies it: the three fields that the
/// monitor reads, the creation time already cut down to whole seconds.
#[derive(Debug, PartialEq, Eq)]
pub struct Post {
    pub title: String,
    pub created_utc: i64,
    pub permalink: String,
}

/// What a [`Post`] holds.
pub struct PostView {
    pub title: Seq<char>,
    pub created_utc: i64,
    pub permalink: Seq<char>,
}

impl View for Post {
    type V = PostView;

    open spec fn view(&self) -> PostView {
        PostView { title: self.title@, created_utc: self.created_utc, permalink: self.permalink@ }
    }
}

/// What an [`Entry`] holds.
pub struct EntryView {
    /// The key by which entries are told apart.
    pub title: Seq<char>,
    /// Seconds since the Unix epoch.
    pub created_at: i64,
    /// The absolute link.
    pub link: Seq<char>,
}

/// The entry that a post of the feed stands for.
pub open spec fn entry_of(post: PostView) -> EntryView {
    EntryView {
        title: post.title,
        created_at: post.created_utc,
        link: absolute_link(post.permalink),
    }
}

/// One feed item as the monitor keeps it. Its creation time is always an
/// instant that can be rendered.
#[derive(Debug, PartialEq, Eq)]
pub struct Entry {
    title: String,
    created_at: i64,
    link: String,
}

impl View for Entry {
    type V = EntryView;

    closed spec fn view(&self) -> EntryView {
        EntryView { title: self.title@, created_at: self.created_at, link: self.link@ }
    }
}

impl Entry {
    #[verifier::type_invariant]
    spec fn renderable(&self) -> bool {
        utc_text(self.created_at) is Some
    }

    /// Makes an entry from its parts; `None` where `created_at` is no
    /// instant that can be rendered.
    pub fn new(title: String, created_at: i64, link: String) -> (entry: Option<Entry>)
        ensures
            entry is Some <==> utc_text(created_at) is Some,
            entry matches Some(e) ==> e@ == (EntryView { title: title@, created_at, link: link@ }),
    {
        if is_renderable(created_at) {
            Some(Entry { title, created_at, link })
        } else {
            None
        }
    }

    /// Makes the entry that `post` stands for: the same title and creation
    /// time, the permalink resolved against the origin.
    pub fn from_post(post: &Post) -> (entry: Option<Entry>)
        ensures
            entry is Some <==> utc_text(post.created_utc) is Some,
            entry matches Some(e) ==> e@ == entry_of(post@),
    {
        Entry::new(post.title.clone(), post.created_utc, make_link(post.permalink.as_str()))
    }

    pub fn title(&self) -> (title: &str)
        ensures
            title@ == self@.title,
    {
        self.title.as_str()
    }

    pub fn created_at(&self) -> (secs: i64)
        ensures
            secs == self@.created_at,
    {
        self.created_at
    }

    pub fn link(&self) -> (link: &str)
        ensures
            link@ == self@.link,
    {
        self.link.as_str()
    }

    /// The creation time in UTC, as text.
    pub fn created_text(&self) -> (text: String)
        ensures
            utc_text(self@.created_at) == Some(text@),
    {
        proof {
            use_type_invariant(self);
        }
        match render_utc(self.created_at) {
            Some(text) => text,
            None => String::new(),
        }
    }
}

impl Clone for Entry {
    /// A second entry that holds what this one holds.
    fn clone(&self) -> (copy: Entry)
        ensures
            copy@ == self@,
    {
        proof {
            use_type_invariant(self);
        }
        Entry { title: self.title.clone(), created_at: self.created_at, link: self.link.clone() }
    }
}

/// What each entry of a sequence holds, in the same order.
pub open spec fn views(entries: Seq<Entry>) -> Seq<EntryView> {
    entries.map_values(|e: Entry| e@)
}

} // verus!
