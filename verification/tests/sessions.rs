use bounty_digest::catalog::generate_diff_events;
use bounty_digest::event::{Diff, DiffEvent};
use bounty_digest::session::{
    banner, Action, Event, Phase, RunError, Session, CHUNK_SIZE, MAX_BATCHES,
};

fn named(name: &str) -> DiffEvent {
    DiffEvent::new(name.to_string(), vec![Diff::Added]).unwrap()
}

fn answer(text: &str) -> Event {
    Event::Answered(format!("{{\"choices\":[{{\"message\":{{\"content\":\"{}\"}}}}]}}", text))
}

fn sent(action: Action) -> (String, String) {
    match action {
        Action::Send { print, prompt } => (print, prompt),
        other => panic!("expected a prompt to send, got {:?}", other),
    }
}

fn finished(action: Action) -> String {
    match action {
        Action::Finish { print } => print,
        other => panic!("expected the end, got {:?}", other),
    }
}

#[test]
fn constants() {
    assert_eq!(CHUNK_SIZE, 2);
    assert_eq!(MAX_BATCHES, 3);
}

#[test]
fn banner_counts_the_events() {
    assert_eq!(banner(36), "diff_events len: 36\n");
    assert_eq!(banner(0), "diff_events len: 0\n");
}

#[test]
fn run_over_nothing_ends_at_once() {
    let mut session = Session::new(Vec::new(), 2, 3);
    assert_eq!(session.total(), 0);
    assert_eq!(session.phase(), Phase::Fresh);
    assert_eq!(finished(session.step(Event::Begin)), "diff_events len: 0\n");
    assert_eq!(session.phase(), Phase::Done);
}

#[test]
fn run_with_no_batches_allowed_ends_at_once() {
    let mut session = Session::new(vec![named("X")], 2, 0);
    assert_eq!(finished(session.step(Event::Begin)), "diff_events len: 1\n");
}

#[test]
fn run_over_two_events() {
    let mut session = Session::new(vec![named("X"), named("Y")], 2, 3);
    assert_eq!(session.total(), 1);
    let (print, prompt) = sent(session.step(Event::Begin));
    assert_eq!(print, "diff_events len: 2\n");
    assert_eq!(prompt, "🎉📈 X has a new bounty\n\n🎉📈 Y has a new bounty\n");
    assert_eq!(session.phase(), Phase::Waiting(0));
    let print = finished(session.step(answer("Two new bounties.")));
    assert_eq!(
        print,
        "Two new bounties.\n\n🎉📈 X has a new bounty\n\n🎉📈 Y has a new bounty\n\n"
    );
    assert_eq!(session.phase(), Phase::Done);
}

#[test]
fn run_over_the_catalog_sends_three_prompts() {
    let mut session = Session::new(generate_diff_events(), CHUNK_SIZE, MAX_BATCHES);
    assert_eq!(session.total(), 3);
    let mut prompts = Vec::new();
    let (print, prompt) = sent(session.step(Event::Begin));
    assert_eq!(print, "diff_events len: 36\n");
    prompts.push(prompt);
    for _ in 0..2 {
        let (_, prompt) = sent(session.step(answer("ok")));
        prompts.push(prompt);
    }
    let last = finished(session.step(answer("the end")));
    assert!(last.starts_with("the end\n\n"));
    assert!(last.contains("furucombo"));
    assert!(last.contains("rangeprotocol"));
    assert_eq!(session.phase(), Phase::Done);
    assert_eq!(prompts.len(), 3);
    let all = prompts.concat();
    for name in ["Moonbeam Network", "Teahouse Finance", "MUX", "Morpho", "furucombo", "rangeprotocol"] {
        assert!(all.contains(name));
    }
    for later in ["delv", "eckoDEX", "Octopus Network", "Tidal", "Swappi"] {
        assert!(!all.contains(later));
    }
}

#[test]
fn answer_without_text_does_not_end_the_run() {
    let events = vec![named("A"), named("B"), named("C")];
    let mut session = Session::new(events, 2, 3);
    sent(session.step(Event::Begin));
    let (print, prompt) = sent(session.step(Event::Answered("{\"error\":\"busy\"}".to_string())));
    assert_eq!(
        print,
        "Message not found in the response.\n\nFull response: Object {\"error\": String(\"busy\")}\n"
    );
    assert_eq!(prompt, "🎉📈 C has a new bounty\n");
    assert_eq!(session.phase(), Phase::Waiting(1));
    let print = finished(session.step(answer("fine")));
    assert_eq!(print, "fine\n\n🎉📈 C has a new bounty\n\n");
}

#[test]
fn body_that_is_no_json_ends_the_run() {
    let mut session = Session::new(vec![named("A"), named("B"), named("C")], 2, 3);
    sent(session.step(Event::Begin));
    let action = session.step(Event::Answered("<html>".to_string()));
    assert!(matches!(action, Action::Abort(RunError::Undecodable(_))));
    assert_eq!(session.phase(), Phase::Done);
}

#[test]
fn failed_request_ends_the_run() {
    let mut session = Session::new(vec![named("A"), named("B"), named("C")], 2, 3);
    sent(session.step(Event::Begin));
    assert!(matches!(session.step(Event::Failed), Action::Abort(RunError::Transport)));
    assert_eq!(session.phase(), Phase::Done);
}

#[test]
fn events_out_of_turn_end_the_run() {
    let mut fresh = Session::new(vec![named("A")], 2, 3);
    assert!(matches!(fresh.step(answer("early")), Action::Abort(RunError::OutOfTurn)));
    assert_eq!(fresh.phase(), Phase::Done);

    let mut fresh = Session::new(vec![named("A")], 2, 3);
    assert!(matches!(fresh.step(Event::Failed), Action::Abort(RunError::OutOfTurn)));

    let mut waiting = Session::new(vec![named("A")], 2, 3);
    sent(waiting.step(Event::Begin));
    assert!(matches!(waiting.step(Event::Begin), Action::Abort(RunError::OutOfTurn)));

    let mut done = Session::new(Vec::new(), 2, 3);
    finished(done.step(Event::Begin));
    assert!(matches!(done.step(Event::Begin), Action::Abort(RunError::OutOfTurn)));
    assert_eq!(done.phase(), Phase::Done);
}
