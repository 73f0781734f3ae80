//! The fixed list of events that a run announces.

use crate::event::{diff_views, event_views, Diff, DiffEvent, DiffEventView, DiffView};
use vstd::prelude::*;

verus! {

/// Number of events in the list.
pub const CATALOG_LEN: usize = 36;

/// The event of the programme `name` with two changes.
pub open spec fn pair(name: Seq<char>, first: DiffView, second: DiffView) -> DiffEventView {
    DiffEventView { name, diffs: seq![first, second] }
}

/// The list of events, in the order in which they are processed.
pub open spec fn catalog() -> Seq<DiffEventView> {
    seq![
        pair("Moonbeam Network"@, DiffView::LastUpdatedChanged("2024-08-29T08:43:24.547"@), DiffView::MaxPayoutChanged(500000, 300000)),
        pair("Teahouse Finance"@, DiffView::LastUpdatedChanged("2024-08-28T14:25:50.055"@), DiffView::Added),
        pair("MUX"@, DiffView::LastUpdatedChanged("2024-08-28T12:03:22.374"@), DiffView::Removed),
        pair("Morpho"@, DiffView::MaxPayoutChanged(1944445, 100000), DiffView::LastUpdatedChanged("2024-08-28T10:00:00.000"@)),
        pair("furucombo"@, DiffView::Removed, DiffView::LastUpdatedChanged("2024-08-27T09:00:00.000"@)),
        pair("rangeprotocol"@, DiffView::Added, DiffView::StartDateChanged("2024-08-26T08:00:00.000"@)),
        pair("delv"@, DiffView::Removed, DiffView::EndDateChanged("2024-08-25T07:00:00.000"@)),
        pair("eckoDEX"@, DiffView::AssetsAdded("0x0000000000000000000000000000000000000000"@), DiffView::LastUpdatedChanged("2024-08-24T06:00:00.000"@)),
        pair("Octopus Network"@, DiffView::Removed, DiffView::MaxPayoutChanged(60000, 50000)),
        pair("lendr"@, DiffView::Removed, DiffView::AssetsRemoved("0x0000000000000000000000000000000000000000"@)),
        pair("Defly"@, DiffView::Added, DiffView::LastUpdatedChanged("2024-08-23T05:00:00.000"@)),
        pair("hydradx"@, DiffView::Removed, DiffView::StartDateChanged("2024-08-22T04:00:00.000"@)),
        pair("Overlay"@, DiffView::Removed, DiffView::EndDateChanged("2024-08-21T03:00:00.000"@)),
        pair("idex"@, DiffView::AssetsAdded("0x0000000000000000000000000000000000000000"@), DiffView::LastUpdatedChanged("2024-08-20T02:00:00.000"@)),
        pair("SpookySwap"@, DiffView::Removed, DiffView::MaxPayoutChanged(70000, 60000)),
        pair("thorchain"@, DiffView::Removed, DiffView::AssetsRemoved("0x0000000000000000000000000000000000000000"@)),
        pair("lybrafinance"@, DiffView::Removed, DiffView::LastUpdatedChanged("2024-08-19T01:00:00.000"@)),
        pair("print3r"@, DiffView::Added, DiffView::StartDateChanged("2024-08-18T00:00:00.000"@)),
        pair("Hourglass"@, DiffView::Removed, DiffView::EndDateChanged("2024-08-17T23:00:00.000"@)),
        pair("meanfinance"@, DiffView::Removed, DiffView::AssetsAdded("0x0000000000000000000000000000000000000000"@)),
        pair("LandX"@, DiffView::Removed, DiffView::LastUpdatedChanged("2024-08-16T22:00:00.000"@)),
        pair("Composable Finance"@, DiffView::Removed, DiffView::MaxPayoutChanged(80000, 70000)),
        pair("aloeprotocol"@, DiffView::Removed, DiffView::AssetsRemoved("0x0000000000000000000000000000000000000000"@)),
        pair("darwinia"@, DiffView::Removed, DiffView::LastUpdatedChanged("2024-08-15T21:00:00.000"@)),
        pair("CoW Protocol"@, DiffView::LastUpdatedChanged("2024-08-28T21:09:20.425"@), DiffView::MaxPayoutChanged(90000, 80000)),
        pair("Blackwing"@, DiffView::Removed, DiffView::AssetsAdded("0x0000000000000000000000000000000000000000"@)),
        pair("ribbon"@, DiffView::Removed, DiffView::LastUpdatedChanged("2024-08-14T20:00:00.000"@)),
        pair("bonfida"@, DiffView::Removed, DiffView::MaxPayoutChanged(100000, 90000)),
        pair("Decentraland"@, DiffView::LastUpdatedChanged("2024-08-28T20:41:14.448"@), DiffView::AssetsRemoved("0x0000000000000000000000000000000000000000"@)),
        pair("biconomy"@, DiffView::Removed, DiffView::LastUpdatedChanged("2024-08-13T19:00:00.000"@)),
        pair("Threshold"@, DiffView::Added, DiffView::StartDateChanged("2024-08-12T18:00:00.000"@)),
        pair("metis"@, DiffView::Removed, DiffView::EndDateChanged("2024-08-11T17:00:00.000"@)),
        pair("Jito"@, DiffView::Added, DiffView::AssetsAdded("0x0000000000000000000000000000000000000000"@)),
        pair("securefi"@, DiffView::Removed, DiffView::LastUpdatedChanged("2024-08-10T16:00:00.000"@)),
        pair("Swappi"@, DiffView::Removed, DiffView::MaxPayoutChanged(110000, 100000)),
        pair("Tidal"@, DiffView::Removed, DiffView::AssetsRemoved("0x0000000000000000000000000000000000000000"@)),
    ]
}

fn entry(name: &str, first: Diff, second: Diff) -> (event: DiffEvent)
    requires
        name@.len() > 0,
    ensures
        event@ == pair(name@, first@, second@),
{
    let mut diffs: Vec<Diff> = Vec::new();
    diffs.push(first);
    diffs.push(second);
    assert(diff_views(diffs@) =~= seq![first@, second@]);
    DiffEvent::new(name.to_owned(), diffs).unwrap()
}

/// Builds the list of events.
pub fn generate_diff_events() -> (events: Vec<DiffEvent>)
    ensures
        event_views(events@) == catalog(),
        events@.len() == CATALOG_LEN,
{
    proof {
        reveal_strlit("Moonbeam Network");
        reveal_strlit("Teahouse Finance");
        reveal_strlit("MUX");
        reveal_strlit("Morpho");
        reveal_strlit("furucombo");
        reveal_strlit("rangeprotocol");
        reveal_strlit("delv");
        reveal_strlit("eckoDEX");
        reveal_strlit("Octopus Network");
        reveal_strlit("lendr");
        reveal_strlit("Defly");
        reveal_strlit("hydradx");
        reveal_strlit("Overlay");
        reveal_strlit("idex");
        reveal_strlit("SpookySwap");
        reveal_strlit("thorchain");
        reveal_strlit("lybrafinance");
        reveal_strlit("print3r");
        reveal_strlit("Hourglass");
        reveal_strlit("meanfinance");
        reveal_strlit("LandX");
        reveal_strlit("Composable Finance");
        reveal_strlit("aloeprotocol");
        reveal_strlit("darwinia");
        reveal_strlit("CoW Protocol");
        reveal_strlit("Blackwing");
        reveal_strlit("ribbon");
        reveal_strlit("bonfida");
        reveal_strlit("Decentraland");
        reveal_strlit("biconomy");
        reveal_strlit("Threshold");
        reveal_strlit("metis");
        reveal_strlit("Jito");
        reveal_strlit("securefi");
        reveal_strlit("Swappi");
        reveal_strlit("Tidal");
    }
    let events = vec![
        entry("Moonbeam Network", Diff::LastUpdatedChanged("2024-08-29T08:43:24.547".to_owned()), Diff::MaxPayoutChanged(500000, 300000)),
        entry("Teahouse Finance", Diff::LastUpdatedChanged("2024-08-28T14:25:50.055".to_owned()), Diff::Added),
        entry("MUX", Diff::LastUpdatedChanged("2024-08-28T12:03:22.374".to_owned()), Diff::Removed),
        entry("Morpho", Diff::MaxPayoutChanged(1944445, 100000), Diff::LastUpdatedChanged("2024-08-28T10:00:00.000".to_owned())),
        entry("furucombo", Diff::Removed, Diff::LastUpdatedChanged("2024-08-27T09:00:00.000".to_owned())),
        entry("rangeprotocol", Diff::Added, Diff::StartDateChanged("2024-08-26T08:00:00.000".to_owned())),
        entry("delv", Diff::Removed, Diff::EndDateChanged("2024-08-25T07:00:00.000".to_owned())),
        entry("eckoDEX", Diff::AssetsAdded("0x0000000000000000000000000000000000000000".to_owned()), Diff::LastUpdatedChanged("2024-08-24T06:00:00.000".to_owned())),
        entry("Octopus Network", Diff::Removed, Diff::MaxPayoutChanged(60000, 50000)),
        entry("lendr", Diff::Removed, Diff::AssetsRemoved("0x0000000000000000000000000000000000000000".to_owned())),
        entry("Defly", Diff::Added, Diff::LastUpdatedChanged("2024-08-23T05:00:00.000".to_owned())),
        entry("hydradx", Diff::Removed, Diff::StartDateChanged("2024-08-22T04:00:00.000".to_owned())),
        entry("Overlay", Diff::Removed, Diff::EndDateChanged("2024-08-21T03:00:00.000".to_owned())),
        entry("idex", Diff::AssetsAdded("0x0000000000000000000000000000000000000000".to_owned()), Diff::LastUpdatedChanged("2024-08-20T02:00:00.000".to_owned())),
        entry("SpookySwap", Diff::Removed, Diff::MaxPayoutChanged(70000, 60000)),
        entry("thorchain", Diff::Removed, Diff::AssetsRemoved("0x0000000000000000000000000000000000000000".to_owned())),
        entry("lybrafinance", Diff::Removed, Diff::LastUpdatedChanged("2024-08-19T01:00:00.000".to_owned())),
        entry("print3r", Diff::Added, Diff::StartDateChanged("2024-08-18T00:00:00.000".to_owned())),
        entry("Hourglass", Diff::Removed, Diff::EndDateChanged("2024-08-17T23:00:00.000".to_owned())),
        entry("meanfinance", Diff::Removed, Diff::AssetsAdded("0x0000000000000000000000000000000000000000".to_owned())),
        entry("LandX", Diff::Removed, Diff::LastUpdatedChanged("2024-08-16T22:00:00.000".to_owned())),
        entry("Composable Finance", Diff::Removed, Diff::MaxPayoutChanged(80000, 70000)),
        entry("aloeprotocol", Diff::Removed, Diff::AssetsRemoved("0x0000000000000000000000000000000000000000".to_owned())),
        entry("darwinia", Diff::Removed, Diff::LastUpdatedChanged("2024-08-15T21:00:00.000".to_owned())),
        entry("CoW Protocol", Diff::LastUpdatedChanged("2024-08-28T21:09:20.425".to_owned()), Diff::MaxPayoutChanged(90000, 80000)),
        entry("Blackwing", Diff::Removed, Diff::AssetsAdded("0x0000000000000000000000000000000000000000".to_owned())),
        entry("ribbon", Diff::Removed, Diff::LastUpdatedChanged("2024-08-14T20:00:00.000".to_owned())),
        entry("bonfida", Diff::Removed, Diff::MaxPayoutChanged(100000, 90000)),
        entry("Decentraland", Diff::LastUpdatedChanged("2024-08-28T20:41:14.448".to_owned()), Diff::AssetsRemoved("0x0000000000000000000000000000000000000000".to_owned())),
        entry("biconomy", Diff::Removed, Diff::LastUpdatedChanged("2024-08-13T19:00:00.000".to_owned())),
        entry("Threshold", Diff::Added, Diff::StartDateChanged("2024-08-12T18:00:00.000".to_owned())),
        entry("metis", Diff::Removed, Diff::EndDateChanged("2024-08-11T17:00:00.000".to_owned())),
        entry("Jito", Diff::Added, Diff::AssetsAdded("0x0000000000000000000000000000000000000000".to_owned())),
        entry("securefi", Diff::Removed, Diff::LastUpdatedChanged("2024-08-10T16:00:00.000".to_owned())),
        entry("Swappi", Diff::Removed, Diff::MaxPayoutChanged(110000, 100000)),
        entry("Tidal", Diff::Removed, Diff::AssetsRemoved("0x0000000000000000000000000000000000000000".to_owned())),
    ];
    assert(event_views(events@) =~= catalog());
    events
}

} // verus!
