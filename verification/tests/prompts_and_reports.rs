use bounty_digest::batch::batches;
use bounty_digest::catalog::generate_diff_events;
use bounty_digest::event::{Diff, DiffEvent};
use bounty_digest::prompt::{assemble_prompt, join_blocks, render_blocks};
use bounty_digest::report::{print_blocks, report, Reply};
use bounty_digest::response::{content, read_reply, reply_from};

fn two_events() -> Vec<DiffEvent> {
    vec![
        DiffEvent::new("X".to_string(), vec![Diff::Added]).unwrap(),
        DiffEvent::new("Y".to_string(), vec![Diff::Removed]).unwrap(),
    ]
}

#[test]
fn prompt_of_nothing_is_empty() {
    assert_eq!(assemble_prompt(&[]), "");
}

#[test]
fn prompt_of_one_event_is_its_text() {
    let events = vec![DiffEvent::new("X".to_string(), vec![Diff::Added]).unwrap()];
    assert_eq!(assemble_prompt(&events), "🎉📈 X has a new bounty\n");
    assert_eq!(assemble_prompt(&events), events[0].render());
}

#[test]
fn prompt_of_two_events() {
    let events = two_events();
    let prompt = assemble_prompt(&events);
    assert_eq!(prompt, "🎉📈 X has a new bounty\n\n🚨❌ Y removed their bounty\n");
    let lines: Vec<&str> = prompt.lines().filter(|l| !l.is_empty()).collect();
    assert_eq!(lines, vec!["🎉📈 X has a new bounty", "🚨❌ Y removed their bounty"]);
}

#[test]
fn prompt_is_blocks_joined_by_line_breaks() {
    let catalog = generate_diff_events();
    for chunk in 1..5usize {
        for group in batches(&catalog, chunk, 4) {
            let mut expected = String::new();
            for (i, e) in group.iter().enumerate() {
                if i > 0 {
                    expected.push('\n');
                }
                expected.push_str(&e.render());
            }
            assert_eq!(assemble_prompt(group), expected);
        }
    }
}

#[test]
fn first_catalog_prompt() {
    let catalog = generate_diff_events();
    let groups = batches(&catalog, 2, 3);
    assert_eq!(
        assemble_prompt(groups[0]),
        "📅🔄 Moonbeam Network was last updated on 2024-08-29T08:43:24.547\n\
         💵🤑 Max payout increased to $500000 for Moonbeam Network\n\
         \n\
         📅🔄 Teahouse Finance was last updated on 2024-08-28T14:25:50.055\n\
         🎉📈 Teahouse Finance has a new bounty\n"
    );
}

#[test]
fn blocks_are_rendered_in_order() {
    let events = two_events();
    assert_eq!(
        render_blocks(&events),
        vec!["🎉📈 X has a new bounty\n".to_string(), "🚨❌ Y removed their bounty\n".to_string()]
    );
}

#[test]
fn join_puts_one_break_between() {
    assert_eq!(join_blocks(&[]), "");
    assert_eq!(join_blocks(&["a".to_string()]), "a");
    assert_eq!(join_blocks(&["a".to_string(), "b".to_string(), "c".to_string()]), "a\nb\nc");
    assert_eq!(join_blocks(&["a\n".to_string(), String::new(), "c\n".to_string()]), "a\n\n\nc\n");
}

#[test]
fn printed_blocks_end_with_a_break_each() {
    let events = two_events();
    assert_eq!(print_blocks(&events), "🎉📈 X has a new bounty\n\n🚨❌ Y removed their bounty\n\n");
    assert_eq!(print_blocks(&[]), "");
}

#[test]
fn report_with_text() {
    let events = two_events();
    let text = report(&Reply::Text("Two programmes changed.".to_string()), &events);
    assert_eq!(
        text,
        "Two programmes changed.\n\n🎉📈 X has a new bounty\n\n🚨❌ Y removed their bounty\n\n"
    );
}

#[test]
fn report_without_text() {
    let events = two_events();
    let text = report(&Reply::Missing("Object {}".to_string()), &events);
    assert_eq!(text, "Message not found in the response.\n\nFull response: Object {}\n");
}

#[test]
fn reply_with_content() {
    let body = r#"{"choices":[{"message":{"role":"assistant","content":"Hello there"}}]}"#;
    assert_eq!(read_reply(body).unwrap(), Reply::Text("Hello there".to_string()));
}

#[test]
fn reply_takes_the_first_choice() {
    let body = r#"{"choices":[{"message":{"content":"one"}},{"message":{"content":"two"}}]}"#;
    assert_eq!(read_reply(body).unwrap(), Reply::Text("one".to_string()));
}

#[test]
fn reply_with_empty_content() {
    let body = r#"{"choices":[{"message":{"content":""}}]}"#;
    assert_eq!(read_reply(body).unwrap(), Reply::Text(String::new()));
}

#[test]
fn reply_without_content() {
    let body = r#"{"choices":[{"message":{"role":"assistant"}}]}"#;
    assert_eq!(
        read_reply(body).unwrap(),
        Reply::Missing(
            "Object {\"choices\": Array [Object {\"message\": Object {\"role\": String(\"assistant\")}}]}"
                .to_string()
        )
    );
}

#[test]
fn reply_with_content_that_is_no_string() {
    let body = r#"{"choices":[{"message":{"content":17}}]}"#;
    assert!(matches!(read_reply(body).unwrap(), Reply::Missing(_)));
}

#[test]
fn reply_without_choices() {
    assert_eq!(
        read_reply(r#"{"error":"rate limit"}"#).unwrap(),
        Reply::Missing("Object {\"error\": String(\"rate limit\")}".to_string())
    );
    assert_eq!(read_reply("{}").unwrap(), Reply::Missing("Object {}".to_string()));
    assert_eq!(read_reply("null").unwrap(), Reply::Missing("Null".to_string()));
    assert_eq!(read_reply(r#"{"choices":[]}"#).unwrap(), Reply::Missing("Object {\"choices\": Array []}".to_string()));
}

#[test]
fn reply_where_choices_is_an_object() {
    let body = r#"{"choices":{"0":{"message":{"content":"no"}}}}"#;
    assert!(matches!(read_reply(body).unwrap(), Reply::Missing(_)));
}

#[test]
fn body_that_is_no_json() {
    assert!(read_reply("not json").is_err());
    assert!(read_reply("").is_err());
    assert!(read_reply("{\"choices\":").is_err());
    let error = read_reply("not json").unwrap_err();
    assert!(error.cause.is_syntax());
}

#[test]
fn content_of_a_decoded_value() {
    let value: serde_json::Value =
        serde_json::from_str(r#"{"choices":[{"message":{"content":"Hi"}}]}"#).unwrap();
    assert_eq!(content(&value), Some("Hi".to_string()));
    assert_eq!(reply_from(&value), Reply::Text("Hi".to_string()));
    let other: serde_json::Value = serde_json::from_str(r#"[1,2]"#).unwrap();
    assert_eq!(content(&other), None);
    assert_eq!(reply_from(&other), Reply::Missing("Array [Number(1), Number(2)]".to_string()));
}
