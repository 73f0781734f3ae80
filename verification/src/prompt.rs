//! The text that is sent for one batch of events.

use crate::event::{event_views, line_break, DiffEvent, DiffEventView};
use vstd::prelude::*;

verus! {

/// The texts one after the other, with one line break between each two.
pub open spec fn joined(blocks: Seq<Seq<char>>) -> Seq<char>
    decreases blocks.len(),
{
    if blocks.len() == 0 {
        Seq::<char>::empty()
    } else if blocks.len() == 1 {
        blocks[0]
    } else {
        joined(blocks.drop_last()) + line_break() + blocks.last()
    }
}

/// The text of each event.
pub open spec fn blocks_of(events: Seq<DiffEventView>) -> Seq<Seq<char>> {
    Seq::new(events.len(), |index: int| events[index].block())
}

/// The prompt for a batch: the text of each event, in the batch's order,
/// with one line break between the texts of two events.
pub open spec fn prompt_text(events: Seq<DiffEventView>) -> Seq<char> {
    joined(blocks_of(events))
}

/// What a list of strings holds.
pub open spec fn text_views(texts: Seq<String>) -> Seq<Seq<char>> {
    Seq::new(texts.len(), |index: int| texts[index]@)
}

/// Writes the text of each event of the batch.
pub fn render_blocks(batch: &[DiffEvent]) -> (blocks: Vec<String>)
    ensures
        text_views(blocks@) == blocks_of(event_views(batch@)),
{
    let mut blocks: Vec<String> = Vec::new();
    let mut done: usize = 0;
    while done < batch.len()
        invariant
            done <= batch@.len(),
            blocks@.len() == done,
            forall|index: int|
                0 <= index < done ==> (#[trigger] blocks@[index])@ == batch@[index]@.block(),
        decreases batch@.len() - done,
    {
        let block = batch[done].render();
        blocks.push(block);
        done += 1;
    }
    assert(text_views(blocks@) =~= blocks_of(event_views(batch@)));
    blocks
}

/// Puts the texts one after the other, with one line break between each two.
pub fn join_blocks(blocks: &[String]) -> (text: String)
    ensures
        text@ == joined(text_views(blocks@)),
{
    let mut text = String::new();
    let mut done: usize = 0;
    while done < blocks.len()
        invariant
            done <= blocks@.len(),
            text@ == joined(text_views(blocks@).take(done as int)),
        decreases blocks@.len() - done,
    {
        proof {
            reveal_strlit("\n");
            let views = text_views(blocks@);
            assert(views.take(done + 1).drop_last() =~= views.take(done as int));
            assert("\n"@ =~= line_break());
        }
        if done > 0 {
            text.append("\n");
        }
        text.append(blocks[done].as_str());
        done += 1;
    }
    assert(text_views(blocks@).take(done as int) =~= text_views(blocks@));
    text
}

/// Writes the prompt for a batch.
pub fn assemble_prompt(batch: &[DiffEvent]) -> (text: String)
    ensures
        text@ == prompt_text(event_views(batch@)),
{
    let blocks = render_blocks(batch);
    join_blocks(blocks.as_slice())
}

/// Of no event the prompt is empty, and of one event it is that event's
/// text.
pub proof fn prompt_of_few(events: Seq<DiffEventView>)
    requires
        events.len() <= 1,
    ensures
        events.len() == 0 ==> prompt_text(events) == Seq::<char>::empty(),
        events.len() == 1 ==> prompt_text(events) == events[0].block(),
{
}

/// One more event adds a line break and its text to the prompt of those
/// before it.
pub proof fn prompt_of_more(events: Seq<DiffEventView>, next: DiffEventView)
    requires
        events.len() > 0,
    ensures
        prompt_text(events.push(next)) == prompt_text(events) + line_break() + next.block(),
{
    let blocks = blocks_of(events.push(next));
    assert(blocks.drop_last() =~= blocks_of(events));
}

} // verus!
