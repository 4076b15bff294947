//! What one cycle has to say, and the text in which it says it.

use crate::entry::{views, Entry, EntryView};
use crate::fetch::{failure_text, FetchError, FetchErrorView};
use crate::instant::utc_text_or_blank;
use vstd::prelude::*;

verus! {

/// The block of lines that reports one new entry: a line for its title, one
/// for its creation time as rendered, one for its link, and an empty line.
pub open spec fn block_of(title: Seq<char>, created: Seq<char>, link: Seq<char>) -> Seq<char> {
    "Title: "@ + title + "\n"@ + "Creation Date (UTC): "@ + created + "\n"@ + "Link: "@ + link
        + "\n\n"@
}

/// The block that reports `e`, its creation time rendered in UTC.
pub open spec fn block_text(e: EntryView) -> Seq<char> {
    block_of(e.title, utc_text_or_blank(e.created_at), e.link)
}

/// The blocks of several entries, one after the other.
pub open spec fn blocks_text(news: Seq<EntryView>) -> Seq<char>
    decreases news.len(),
{
    if news.len() == 0 {
        Seq::empty()
    } else {
        blocks_text(news.drop_last()) + block_text(news.last())
    }
}

/// The notice of a cycle that found nothing new.
pub open spec fn nothing_new_text() -> Seq<char> {
    "No new posts detected.\n"@
}

/// The line that reports a failed cycle.
pub open spec fn failure_line(error: FetchErrorView) -> Seq<char> {
    "Error: "@ + failure_text(error) + "\n"@
}

/// The outcome of one cycle.
#[derive(Debug, PartialEq, Eq)]
pub enum CycleReport {
    /// The listing came; these of its entries were new, in its order.
    Listed(Vec<Entry>),
    /// The fetch failed.
    Failed(FetchError),
}

/// What a [`CycleReport`] holds.
pub enum ReportView {
    Listed(Seq<EntryView>),
    Failed(FetchErrorView),
}

impl View for CycleReport {
    type V = ReportView;

    open spec fn view(&self) -> ReportView {
        match self {
            CycleReport::Listed(news) => ReportView::Listed(views(news@)),
            CycleReport::Failed(error) => ReportView::Failed(error@),
        }
    }
}

/// What a cycle writes to the output stream: a block for each new entry, or
/// the one notice where there is none; nothing after a failure.
pub open spec fn output_text(report: ReportView) -> Seq<char> {
    match report {
        ReportView::Listed(news) => if news.len() == 0 {
            nothing_new_text()
        } else {
            blocks_text(news)
        },
        ReportView::Failed(_) => Seq::empty(),
    }
}

/// What a cycle writes to the error stream: one line after a failure,
/// nothing otherwise.
pub open spec fn error_text(report: ReportView) -> Seq<char> {
    match report {
        ReportView::Listed(_) => Seq::empty(),
        ReportView::Failed(error) => failure_line(error),
    }
}

/// Writes a block from its three parts, the creation time already rendered.
pub fn write_block(title: &str, created: &str, link: &str) -> (text: String)
    ensures
        text@ == block_of(title@, created@, link@),
{
    let mut text = String::from_str("Title: ");
    text.append(title);
    text.append("\n");
    text.append("Creation Date (UTC): ");
    text.append(created);
    text.append("\n");
    text.append("Link: ");
    text.append(link);
    text.append("\n\n");
    text
}

/// Writes the block of one entry.
pub fn render_block(entry: &Entry) -> (text: String)
    ensures
        text@ == block_text(entry@),
{
    let created = entry.created_text();
    write_block(entry.title(), created.as_str(), entry.link())
}

impl CycleReport {
    /// Whether the cycle found a new entry.
    pub fn has_news(&self) -> (any: bool)
        ensures
            any <==> (self@ matches ReportView::Listed(news) && news.len() > 0),
    {
        match self {
            CycleReport::Listed(news) => news.len() > 0,
            CycleReport::Failed(_) => false,
        }
    }

    /// The text for the output stream.
    pub fn output(&self) -> (text: String)
        ensures
            text@ == output_text(self@),
    {
        match self {
            CycleReport::Listed(news) => {
                if news.len() == 0 {
                    String::from_str("No new posts detected.\n")
                } else {
                    let mut text = String::new();
                    let mut i: usize = 0;
                    while i < news.len()
                        invariant
                            i <= news.len(),
                            text@ == blocks_text(views(news@).take(i as int)),
                        decreases news.len() - i,
                    {
                        let block = render_block(&news[i]);
                        proof {
                            let next = views(news@).take(i + 1);
                            assert(next.drop_last() =~= views(news@).take(i as int));
                        }
                        text.append(block.as_str());
                        i += 1;
                    }
                    assert(views(news@).take(news.len() as int) =~= views(news@));
                    text
                }
            },
            CycleReport::Failed(_) => String::new(),
        }
    }

    /// The text for the error stream.
    pub fn error_output(&self) -> (text: String)
        ensures
            text@ == error_text(self@),
    {
        match self {
            CycleReport::Listed(_) => String::new(),
            CycleReport::Failed(error) => {
                let mut text = String::from_str("Error: ");
                let message = error.message();
                text.append(message.as_str());
                text.append("\n");
                text
            },
        }
    }
}

} // verus!
