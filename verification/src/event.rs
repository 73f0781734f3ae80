//! The change events of a tracked bounty programme and the lines they are
//! announced with.

use crate::decimal::{decimal, decimal_string};
use vstd::prelude::*;

verus! {

/// One observed difference for a tracked programme.
#[derive(Debug, PartialEq, Eq)]
pub enum Diff {
    /// The programme newly appeared.
    Added,
    /// The programme disappeared.
    Removed,
    /// The maximum payout changed: the new amount, then the previous one.
    MaxPayoutChanged(u64, u64),
    /// The programme was updated at the given time.
    LastUpdatedChanged(String),
    /// The programme now starts at the given time.
    StartDateChanged(String),
    /// The programme now ends at the given time.
    EndDateChanged(String),
    /// The named asset came into scope.
    AssetsAdded(String),
    /// The named asset went out of scope.
    AssetsRemoved(String),
}

/// What a [`Diff`] is, with its texts as character sequences.
pub enum DiffView {
    Added,
    Removed,
    MaxPayoutChanged(nat, nat),
    LastUpdatedChanged(Seq<char>),
    StartDateChanged(Seq<char>),
    EndDateChanged(Seq<char>),
    AssetsAdded(Seq<char>),
    AssetsRemoved(Seq<char>),
}

impl View for Diff {
    type V = DiffView;

    open spec fn view(&self) -> DiffView {
        match self {
            Diff::Added => DiffView::Added,
            Diff::Removed => DiffView::Removed,
            Diff::MaxPayoutChanged(new, prev) => DiffView::MaxPayoutChanged(
                *new as nat,
                *prev as nat,
            ),
            Diff::LastUpdatedChanged(date) => DiffView::LastUpdatedChanged(date@),
            Diff::StartDateChanged(date) => DiffView::StartDateChanged(date@),
            Diff::EndDateChanged(date) => DiffView::EndDateChanged(date@),
            Diff::AssetsAdded(asset) => DiffView::AssetsAdded(asset@),
            Diff::AssetsRemoved(asset) => DiffView::AssetsRemoved(asset@),
        }
    }
}

/// The line break that ends every announced line.
pub open spec fn line_break() -> Seq<char> {
    seq!['\n']
}

/// The line that announces one change of the programme called `name`.
///
/// A payout that did not grow is announced as reduced, also when it stayed
/// the same.
pub open spec fn diff_line(name: Seq<char>, diff: DiffView) -> Seq<char> {
    match diff {
        DiffView::Added => "🎉📈 "@ + name + " has a new bounty"@,
        DiffView::Removed => "🚨❌ "@ + name + " removed their bounty"@,
        DiffView::MaxPayoutChanged(new, prev) => if new > prev {
            "💵🤑 Max payout increased to $"@ + decimal(new) + " for "@ + name
        } else {
            "✂️💰 Max payout reduced to $"@ + decimal(new) + " for "@ + name
        },
        DiffView::LastUpdatedChanged(date) => "📅🔄 "@ + name + " was last updated on "@ + date,
        DiffView::StartDateChanged(date) => "🚀📅 "@ + name
            + " start date has been changed to "@ + date,
        DiffView::EndDateChanged(date) => "⏳📅 "@ + name + " end date has been changed to "@
            + date,
        DiffView::AssetsAdded(asset) => "🆕💎 "@ + name + " added "@ + asset
            + " to their bounty"@,
        DiffView::AssetsRemoved(asset) => "⚠️💔 "@ + name + " removed "@ + asset
            + " from their bounty"@,
    }
}

/// The lines of `diffs` in their order, each ended by a line break.
pub open spec fn diff_lines(name: Seq<char>, diffs: Seq<DiffView>) -> Seq<char>
    decreases diffs.len(),
{
    if diffs.len() == 0 {
        Seq::<char>::empty()
    } else {
        diff_lines(name, diffs.drop_last()) + diff_line(name, diffs.last()) + line_break()
    }
}

/// The views of a sequence of changes.
pub open spec fn diff_views(diffs: Seq<Diff>) -> Seq<DiffView> {
    Seq::new(diffs.len(), |i: int| diffs[i]@)
}

impl Diff {
    /// Writes the line that announces this change of the programme `name`.
    pub fn line(&self, name: &str) -> (text: String)
        ensures
            text@ == diff_line(name@, self@),
    {
        match self {
            Diff::Added => {
                let mut text = "🎉📈 ".to_owned();
                text.append(name);
                text.append(" has a new bounty");
                text
            },
            Diff::Removed => {
                let mut text = "🚨❌ ".to_owned();
                text.append(name);
                text.append(" removed their bounty");
                text
            },
            Diff::MaxPayoutChanged(new, prev) => {
                let mut text = if *new > *prev {
                    "💵🤑 Max payout increased to $".to_owned()
                } else {
                    "✂️💰 Max payout reduced to $".to_owned()
                };
                let amount = decimal_string(*new);
                text.append(amount.as_str());
                text.append(" for ");
                text.append(name);
                text
            },
            Diff::LastUpdatedChanged(date) => {
                let mut text = "📅🔄 ".to_owned();
                text.append(name);
                text.append(" was last updated on ");
                text.append(date.as_str());
                text
            },
            Diff::StartDateChanged(date) => {
                let mut text = "🚀📅 ".to_owned();
                text.append(name);
                text.append(" start date has been changed to ");
                text.append(date.as_str());
                text
            },
            Diff::EndDateChanged(date) => {
                let mut text = "⏳📅 ".to_owned();
                text.append(name);
                text.append(" end date has been changed to ");
                text.append(date.as_str());
                text
            },
            Diff::AssetsAdded(asset) => {
                let mut text = "🆕💎 ".to_owned();
                text.append(name);
                text.append(" added ");
                text.append(asset.as_str());
                text.append(" to their bounty");
                text
            },
            Diff::AssetsRemoved(asset) => {
                let mut text = "⚠️💔 ".to_owned();
                text.append(name);
                text.append(" removed ");
                text.append(asset.as_str());
                text.append(" from their bounty");
                text
            },
        }
    }
}

/// A payout that grew is announced as increased.
pub proof fn payout_increase_line(name: Seq<char>, new: nat, prev: nat)
    requires
        new > prev,
    ensures
        diff_line(name, DiffView::MaxPayoutChanged(new, prev))
            == "💵🤑 Max payout increased to $"@ + decimal(new) + " for "@ + name,
{
}

/// A payout that did not grow is announced as reduced, the unchanged one too.
pub proof fn payout_reduction_line(name: Seq<char>, new: nat, prev: nat)
    requires
        new <= prev,
    ensures
        diff_line(name, DiffView::MaxPayoutChanged(new, prev))
            == "✂️💰 Max payout reduced to $"@ + decimal(new) + " for "@ + name,
{
}

/// The changes of one tracked programme, in the order they are announced.
#[derive(Debug, PartialEq, Eq)]
pub struct DiffEvent {
    name: String,
    diffs: Vec<Diff>,
}

/// What a [`DiffEvent`] is: the programme's name and its changes.
pub struct DiffEventView {
    pub name: Seq<char>,
    pub diffs: Seq<DiffView>,
}

impl DiffEventView {
    /// The text that announces the event: one line for each change.
    pub open spec fn block(self) -> Seq<char> {
        diff_lines(self.name, self.diffs)
    }
}

impl View for DiffEvent {
    type V = DiffEventView;

    closed spec fn view(&self) -> DiffEventView {
        DiffEventView { name: self.name@, diffs: diff_views(self.diffs@) }
    }
}

/// The views of a sequence of events.
pub open spec fn event_views(events: Seq<DiffEvent>) -> Seq<DiffEventView> {
    Seq::new(events.len(), |i: int| events[i]@)
}

impl DiffEvent {
    /// An event has a name and at least one change.
    #[verifier::type_invariant]
    spec fn well_formed(&self) -> bool {
        self.name@.len() > 0 && self.diffs@.len() > 0
    }

    /// Makes the event of the programme `name` with the changes `diffs`.
    /// There is no event without a name or without a change.
    pub fn new(name: String, diffs: Vec<Diff>) -> (event: Option<DiffEvent>)
        ensures
            event is Some <==> name@.len() > 0 && diffs@.len() > 0,
            event is Some ==> event.unwrap()@ == (DiffEventView {
                name: name@,
                diffs: diff_views(diffs@),
            }),
    {
        if name.as_str().is_empty() || diffs.len() == 0 {
            None
        } else {
            Some(DiffEvent { name, diffs })
        }
    }

    /// The programme's name.
    pub fn name(&self) -> (name: &str)
        ensures
            name@ == self@.name,
            name@.len() > 0,
    {
        proof {
            use_type_invariant(self);
        }
        self.name.as_str()
    }

    /// The programme's changes, in their order.
    pub fn diffs(&self) -> (diffs: &[Diff])
        ensures
            diff_views(diffs@) == self@.diffs,
            diffs@.len() > 0,
    {
        proof {
            use_type_invariant(self);
        }
        self.diffs.as_slice()
    }

    /// Writes the text that announces the event: one line for each change,
    /// in their order, each ended by a line break.
    pub fn render(&self) -> (text: String)
        ensures
            text@ == self@.block(),
    {
        let mut text = String::new();
        let mut done: usize = 0;
        while done < self.diffs.len()
            invariant
                done <= self.diffs@.len(),
                text@ == diff_lines(self.name@, diff_views(self.diffs@).take(done as int)),
            decreases self.diffs@.len() - done,
        {
            let line = self.diffs[done].line(self.name.as_str());
            text.append(line.as_str());
            text.append("\n");
            proof {
                reveal_strlit("\n");
                let views = diff_views(self.diffs@);
                assert(views.take(done + 1).drop_last() =~= views.take(done as int));
                assert("\n"@ =~= line_break());
            }
            done += 1;
        }
        proof {
            assert(diff_views(self.diffs@).take(done as int) =~= diff_views(self.diffs@));
        }
        text
    }
}

/// An event has a name and at least one change, so its text ends with a line
/// break.
pub proof fn block_ends_with_line_break(name: Seq<char>, diffs: Seq<DiffView>)
    requires
        diffs.len() > 0,
    ensures
        diff_lines(name, diffs).len() > 0,
        diff_lines(name, diffs).last() == '\n',
{
}

} // verus!
