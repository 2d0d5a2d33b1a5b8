use chatty::message::Message;
use chatty::time::Timestamp;
use chatty::ui::{collect_messages, BorderColor, Choice};

#[test]
fn choice_starts_unfocused_and_toggles() {
    let mut c = Choice::new("Pick one".to_string(), vec!["a".to_string(), "b".to_string()]);
    assert!(!c.focused());
    c.toggle_focus();
    assert!(c.focused());
    c.toggle_focus();
    assert!(!c.focused());
    assert_eq!(c.question(), "Pick one");
    assert_eq!(c.options().len(), 2);
}

#[test]
fn collect_messages_one_line_per_message() {
    let list = vec![
        Message { sender: "a".to_string(), content: "x".to_string(), timestamp: Timestamp { secs: 1, nanos: 2 }, color: [1, 1, 1] },
        Message { sender: "b".to_string(), content: "y".to_string(), timestamp: Timestamp { secs: 3, nanos: 4 }, color: [2, 2, 2] },
    ];
    let view = collect_messages(&list, 7, true);
    assert_eq!(view.lines.len(), 2);
    assert_eq!(view.lines[1].sender, "b");
    assert_eq!(view.lines[1].content, "y");
    assert_eq!(view.lines[1].color, [2, 2, 2]);
    assert_eq!(view.lines[0].timestamp, Timestamp { secs: 1, nanos: 2 });
    assert_eq!(view.scroll, 7);
    assert_eq!(view.border, BorderColor::White);
    assert_eq!(collect_messages(&list, 0, false).border, BorderColor::LightYellow);
}
