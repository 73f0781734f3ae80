use bounty_digest::decimal::decimal_string;
use bounty_digest::event::{Diff, DiffEvent};

fn event(name: &str, diffs: Vec<Diff>) -> DiffEvent {
    DiffEvent::new(name.to_string(), diffs).unwrap()
}

#[test]
fn decimal_of_zero_is_one_digit() {
    assert_eq!(decimal_string(0), "0");
}

#[test]
fn decimal_of_single_digits() {
    assert_eq!(decimal_string(7), "7");
    assert_eq!(decimal_string(9), "9");
}

#[test]
fn decimal_of_larger_numbers() {
    assert_eq!(decimal_string(10), "10");
    assert_eq!(decimal_string(1944445), "1944445");
    assert_eq!(decimal_string(500000), "500000");
    assert_eq!(decimal_string(u64::MAX), "18446744073709551615");
}

#[test]
fn decimal_agrees_with_std_formatting() {
    let mut n: u64 = 1;
    for _ in 0..19 {
        assert_eq!(decimal_string(n), format!("{}", n));
        assert_eq!(decimal_string(n - 1), format!("{}", n - 1));
        n *= 10;
    }
}

#[test]
fn added_line() {
    assert_eq!(Diff::Added.line("Acme"), "🎉📈 Acme has a new bounty");
}

#[test]
fn removed_line() {
    assert_eq!(Diff::Removed.line("Acme"), "🚨❌ Acme removed their bounty");
}

#[test]
fn payout_increase_line() {
    assert_eq!(
        Diff::MaxPayoutChanged(500000, 300000).line("Moonbeam Network"),
        "💵🤑 Max payout increased to $500000 for Moonbeam Network"
    );
}

#[test]
fn payout_reduction_line() {
    assert_eq!(
        Diff::MaxPayoutChanged(100, 250).line("Acme"),
        "✂️💰 Max payout reduced to $100 for Acme"
    );
}

#[test]
fn unchanged_payout_reads_as_reduction() {
    assert_eq!(
        Diff::MaxPayoutChanged(250, 250).line("Acme"),
        "✂️💰 Max payout reduced to $250 for Acme"
    );
}

#[test]
fn payout_of_zero() {
    assert_eq!(
        Diff::MaxPayoutChanged(0, 1).line("Acme"),
        "✂️💰 Max payout reduced to $0 for Acme"
    );
    assert_eq!(
        Diff::MaxPayoutChanged(1, 0).line("Acme"),
        "💵🤑 Max payout increased to $1 for Acme"
    );
}

#[test]
fn last_updated_line() {
    assert_eq!(
        Diff::LastUpdatedChanged("2024-08-29T08:43:24.547".to_string()).line("MUX"),
        "📅🔄 MUX was last updated on 2024-08-29T08:43:24.547"
    );
}

#[test]
fn start_date_line() {
    assert_eq!(
        Diff::StartDateChanged("2024-08-26T08:00:00.000".to_string()).line("rangeprotocol"),
        "🚀📅 rangeprotocol start date has been changed to 2024-08-26T08:00:00.000"
    );
}

#[test]
fn end_date_line() {
    assert_eq!(
        Diff::EndDateChanged("2024-08-25T07:00:00.000".to_string()).line("delv"),
        "⏳📅 delv end date has been changed to 2024-08-25T07:00:00.000"
    );
}

#[test]
fn asset_added_line() {
    assert_eq!(
        Diff::AssetsAdded("0xabc".to_string()).line("eckoDEX"),
        "🆕💎 eckoDEX added 0xabc to their bounty"
    );
}

#[test]
fn asset_removed_line() {
    assert_eq!(
        Diff::AssetsRemoved("0xabc".to_string()).line("lendr"),
        "⚠️💔 lendr removed 0xabc from their bounty"
    );
}

#[test]
fn same_input_same_line() {
    let first = Diff::LastUpdatedChanged("yesterday".to_string()).line("Acme");
    let second = Diff::LastUpdatedChanged("yesterday".to_string()).line("Acme");
    assert_eq!(first, second);
}

#[test]
fn event_needs_a_name() {
    assert!(DiffEvent::new(String::new(), vec![Diff::Added]).is_none());
}

#[test]
fn event_needs_a_change() {
    assert!(DiffEvent::new("Acme".to_string(), Vec::new()).is_none());
}

#[test]
fn event_keeps_name_and_changes() {
    let e = event("Acme", vec![Diff::Removed, Diff::MaxPayoutChanged(2, 1)]);
    assert_eq!(e.name(), "Acme");
    assert_eq!(e.diffs(), &[Diff::Removed, Diff::MaxPayoutChanged(2, 1)][..]);
}

#[test]
fn render_one_change() {
    let e = event("Acme", vec![Diff::Added]);
    assert_eq!(e.render(), "🎉📈 Acme has a new bounty\n");
}

#[test]
fn render_keeps_order_and_ends_each_line() {
    let e = event(
        "Moonbeam Network",
        vec![
            Diff::LastUpdatedChanged("2024-08-29T08:43:24.547".to_string()),
            Diff::MaxPayoutChanged(500000, 300000),
        ],
    );
    assert_eq!(
        e.render(),
        "📅🔄 Moonbeam Network was last updated on 2024-08-29T08:43:24.547\n\
         💵🤑 Max payout increased to $500000 for Moonbeam Network\n"
    );
}

#[test]
fn render_three_changes() {
    let e = event("A", vec![Diff::Added, Diff::Removed, Diff::Added]);
    assert_eq!(
        e.render(),
        "🎉📈 A has a new bounty\n🚨❌ A removed their bounty\n🎉📈 A has a new bounty\n"
    );
}
