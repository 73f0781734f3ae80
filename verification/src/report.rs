//! What is printed for a batch once the service has answered.

use crate::event::{event_views, line_break, DiffEvent, DiffEventView};
use vstd::prelude::*;

verus! {

/// What was found in the answer of the completion service.
#[derive(Debug, PartialEq, Eq)]
pub enum Reply {
    /// The generated text.
    Text(String),
    /// No generated text; the answer as it was decoded, written out for the
    /// operator.
    Missing(String),
}

/// What a [`Reply`] is.
pub enum ReplyView {
    Text(Seq<char>),
    Missing(Seq<char>),
}

impl View for Reply {
    type V = ReplyView;

    open spec fn view(&self) -> ReplyView {
        match self {
            Reply::Text(message) => ReplyView::Text(message@),
            Reply::Missing(raw) => ReplyView::Missing(raw@),
        }
    }
}

/// The text of each event, in their order, each followed by a line break.
pub open spec fn printed_blocks(events: Seq<DiffEventView>) -> Seq<char>
    decreases events.len(),
{
    if events.len() == 0 {
        Seq::<char>::empty()
    } else {
        printed_blocks(events.drop_last()) + events.last().block() + line_break()
    }
}

/// What is printed for a batch.
///
/// With a generated text: the text, an empty line, then the text of each
/// event of the batch. Without one: a notice, an empty line, and the decoded
/// answer.
pub open spec fn report_text(reply: ReplyView, events: Seq<DiffEventView>) -> Seq<char> {
    match reply {
        ReplyView::Text(message) => message + line_break() + line_break() + printed_blocks(
            events,
        ),
        ReplyView::Missing(raw) => "Message not found in the response."@ + line_break()
            + line_break() + "Full response: "@ + raw + line_break(),
    }
}

/// Writes the text of each event of the batch, each followed by a line break.
pub fn print_blocks(batch: &[DiffEvent]) -> (text: String)
    ensures
        text@ == printed_blocks(event_views(batch@)),
{
    let mut text = String::new();
    let mut done: usize = 0;
    while done < batch.len()
        invariant
            done <= batch@.len(),
            text@ == printed_blocks(event_views(batch@).take(done as int)),
        decreases batch@.len() - done,
    {
        let block = batch[done].render();
        text.append(block.as_str());
        text.append("\n");
        proof {
            reveal_strlit("\n");
            let views = event_views(batch@);
            assert(views.take(done + 1).drop_last() =~= views.take(done as int));
            assert("\n"@ =~= line_break());
        }
        done += 1;
    }
    assert(event_views(batch@).take(done as int) =~= event_views(batch@));
    text
}

/// Writes what is printed for a batch, given what its answer held.
pub fn report(reply: &Reply, batch: &[DiffEvent]) -> (text: String)
    ensures
        text@ == report_text(reply@, event_views(batch@)),
{
    proof {
        reveal_strlit("\n");
        assert("\n"@ =~= line_break());
    }
    match reply {
        Reply::Text(message) => {
            let mut text = String::new();
            text.append(message.as_str());
            text.append("\n");
            text.append("\n");
            let blocks = print_blocks(batch);
            text.append(blocks.as_str());
            assert(text@ =~= report_text(reply@, event_views(batch@)));
            text
        },
        Reply::Missing(raw) => {
            let mut text = "Message not found in the response.".to_owned();
            text.append("\n");
            text.append("\n");
            text.append("Full response: ");
            text.append(raw.as_str());
            text.append("\n");
            assert(text@ =~= report_text(reply@, event_views(batch@)));
            text
        },
    }
}

} // verus!
