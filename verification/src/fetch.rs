//! The fetcher's share that needs no network: the address of a listing, the
//! step from decoded posts to entries, and the ways a fetch can fail.

use crate::entry::{entry_of, views, Entry, EntryView, Post, PostView};
use crate::instant::utc_text;
use vstd::prelude::*;

verus! {

/// The address of the JSON listing of `source`, sorted by `sort`.
pub open spec fn listing_url(source: Seq<char>, sort: Seq<char>) -> Seq<char> {
    "https://www.reddit.com/r/"@ + source + "/"@ + sort + "/.json"@
}

/// Builds the address of the JSON listing of `source`, sorted by `sort`.
/// Neither part is checked: whatever the caller names is asked for.
pub fn feed_url(source: &str, sort: &str) -> (url: String)
    ensures
        url@ == listing_url(source@, sort@),
{
    let mut url = String::from_str("https://www.reddit.com/r/");
    url.append(source);
    url.append("/");
    url.append(sort);
    url.append("/.json");
    url
}

/// Why a fetch brought no listing.
#[derive(Debug, PartialEq, Eq)]
pub enum FetchError {
    /// The request failed or its response could not be read; the transport's
    /// own words.
    Transport(String),
    /// The response body is no JSON document; the body as it came.
    Undecodable(String),
    /// The response body is JSON of another shape than a listing: a field is
    /// missing or holds a value of the wrong kind; the body as it came.
    Malformed(String),
}

/// What a [`FetchError`] holds.
pub enum FetchErrorView {
    Transport(Seq<char>),
    Undecodable(Seq<char>),
    Malformed(Seq<char>),
}

impl View for FetchError {
    type V = FetchErrorView;

    open spec fn view(&self) -> FetchErrorView {
        match self {
            FetchError::Transport(detail) => FetchErrorView::Transport(detail@),
            FetchError::Undecodable(body) => FetchErrorView::Undecodable(body@),
            FetchError::Malformed(body) => FetchErrorView::Malformed(body@),
        }
    }
}

/// The words in which a failure is reported: the transport's own for a
/// transport failure, and the raw body after a fixed prefix for a body that
/// could not be decoded.
pub open spec fn failure_text(error: FetchErrorView) -> Seq<char> {
    match error {
        FetchErrorView::Transport(detail) => detail,
        FetchErrorView::Undecodable(body) => "Error parsing JSON: "@ + body,
        FetchErrorView::Malformed(body) => "Error parsing JSON: "@ + body,
    }
}

impl FetchError {
    /// The failure of a response whose body could not be read.
    pub fn unreadable_body() -> (error: FetchError)
        ensures
            error@ == FetchErrorView::Transport("Failed to read response body"@),
    {
        FetchError::Transport(String::from_str("Failed to read response body"))
    }

    /// The words in which this failure is reported.
    pub fn message(&self) -> (text: String)
        ensures
            text@ == failure_text(self@),
    {
        match self {
            FetchError::Transport(detail) => detail.clone(),
            FetchError::Undecodable(body) => {
                let mut text = String::from_str("Error parsing JSON: ");
                text.append(body.as_str());
                text
            },
            FetchError::Malformed(body) => {
                let mut text = String::from_str("Error parsing JSON: ");
                text.append(body.as_str());
                text
            },
        }
    }
}

/// Whether every creation time of a decoded listing is an instant that can be
/// rendered.
pub open spec fn all_renderable(posts: Seq<PostView>) -> bool {
    forall|i: int| 0 <= i < posts.len() ==> utc_text(#[trigger] posts[i].created_utc) is Some
}

/// What each post of a sequence holds, in the same order.
pub open spec fn post_views(posts: Seq<Post>) -> Seq<PostView> {
    posts.map_values(|p: Post| p@)
}

/// The entries that a decoded listing stands for, in its order.
pub open spec fn entries_of(posts: Seq<PostView>) -> Seq<EntryView> {
    posts.map_values(|p: PostView| entry_of(p))
}

/// Turns the posts decoded from the response body `body` into entries, in
/// their order. A creation time that is no instant makes the whole listing
/// malformed: the failure then carries the body.
pub fn entries_from_posts(posts: &Vec<Post>, body: &str) -> (outcome: Result<
    Vec<Entry>,
    FetchError,
>)
    ensures
        outcome is Ok <==> all_renderable(post_views(posts@)),
        outcome matches Ok(entries) ==> views(entries@) == entries_of(post_views(posts@)),
        outcome matches Err(error) ==> error@ == FetchErrorView::Malformed(body@),
{
    let ghost listing = post_views(posts@);
    let mut entries: Vec<Entry> = Vec::new();
    let mut i: usize = 0;
    while i < posts.len()
        invariant
            i <= posts.len(),
            listing == post_views(posts@),
            all_renderable(listing.take(i as int)),
            views(entries@) == entries_of(listing.take(i as int)),
        decreases posts.len() - i,
    {
        match Entry::from_post(&posts[i]) {
            Some(entry) => {
                entries.push(entry);
            },
            None => {
                assert(utc_text(listing[i as int].created_utc) is None);
                return Err(FetchError::Malformed(String::from_str(body)));
            },
        }
        proof {
            let done = listing.take(i as int);
            let next = listing.take(i + 1);
            assert(entries_of(next) =~= entries_of(done).push(entry_of(listing[i as int])));
            assert forall|j: int| 0 <= j < next.len() implies utc_text(
                #[trigger] next[j].created_utc,
            ) is Some by {}
        }
        i += 1;
    }
    assert(listing.take(posts.len() as int) =~= listing);
    Ok(entries)
}

/// Why a response body yielded no posts.
#[derive(Debug, Clone, Copy, PartialEq, Eq, Structural)]
pub enum DecodeFailure {
    /// The body is no JSON document.
    NotJson,
    /// The body is JSON, but no listing: a field that every post must have
    /// is missing or holds a value of the wrong kind.
    WrongShape,
}

/// What came of decoding a body.
pub open spec fn decoded_view(decoded: Result<Vec<Post>, DecodeFailure>) -> Result<
    Seq<PostView>,
    DecodeFailure,
> {
    match decoded {
        Ok(posts) => Ok(post_views(posts@)),
        Err(failure) => Err(failure),
    }
}

/// What came of a fetch.
pub open spec fn fetched_view(outcome: Result<Vec<Entry>, FetchError>) -> Result<
    Seq<EntryView>,
    FetchErrorView,
> {
    match outcome {
        Ok(entries) => Ok(views(entries@)),
        Err(error) => Err(error@),
    }
}

/// The outcome of a fetch whose response body `body` was decoded with the
/// result `decoded`: the entries that the posts stand for, in their order,
/// or the failure, which carries the body as it came.
pub open spec fn outcome_of_body(body: Seq<char>, decoded: Result<Seq<PostView>, DecodeFailure>)
    -> Result<Seq<EntryView>, FetchErrorView> {
    match decoded {
        Err(DecodeFailure::NotJson) => Err(FetchErrorView::Undecodable(body)),
        Err(DecodeFailure::WrongShape) => Err(FetchErrorView::Malformed(body)),
        Ok(posts) => if all_renderable(posts) {
            Ok(entries_of(posts))
        } else {
            Err(FetchErrorView::Malformed(body))
        },
    }
}

/// Settles the outcome of a fetch once its response body has been read and
/// decoded.
pub fn listing_outcome(body: &str, decoded: Result<Vec<Post>, DecodeFailure>) -> (outcome: Result<
    Vec<Entry>,
    FetchError,
>)
    ensures
        fetched_view(outcome) == outcome_of_body(body@, decoded_view(decoded)),
{
    match decoded {
        Err(DecodeFailure::NotJson) => Err(FetchError::Undecodable(String::from_str(body))),
        Err(DecodeFailure::WrongShape) => Err(FetchError::Malformed(String::from_str(body))),
        Ok(posts) => entries_from_posts(&posts, body),
    }
}

} // verus!
