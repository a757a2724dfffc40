use gpterm::conversation::{is_supported_model, log_line, parse_flag, select_model, ChatSession, InputAction, Message};
use gpterm::validator::{incomplete_brackets, LineStatus, ReplValidator};

fn msg(role: &str, content: &str) -> Message {
    Message { role: role.to_string(), content: content.to_string() }
}

#[test]
fn brackets() {
    assert!(incomplete_brackets("{"));
    assert!(!incomplete_brackets("{}"));
    assert!(incomplete_brackets("(()"));
    assert!(!incomplete_brackets("(())"));
    assert!(incomplete_brackets("{ ( "));
    assert!(!incomplete_brackets("{ ( }"));
    assert!(incomplete_brackets("}{"));
    assert!(!incomplete_brackets("{}}"));
    assert!(incomplete_brackets("{}}{"));
    assert!(incomplete_brackets(")("));
    assert!(!incomplete_brackets("plain text"));
    assert!(!incomplete_brackets(""));
    assert!(incomplete_brackets("{\n    let x = f(1);"));
    assert!(!incomplete_brackets("fn main() {\n    let x = 1;"));
}

#[test]
fn validator_status() {
    assert_eq!(ReplValidator.validate("if (a"), LineStatus::Incomplete);
    assert_eq!(ReplValidator.validate("if (a) {}"), LineStatus::Complete);
}

#[test]
fn input_end_asks_then_exits() {
    let mut s = ChatSession::new(true);
    assert_eq!(s.on_input(None), InputAction::ConfirmExit);
    assert_eq!(s.on_input(Some("hi".to_string())), InputAction::Send);
    assert_eq!(s.on_input(None), InputAction::Exit);
    assert_eq!(s.messages(), &vec![msg("user", "hi")]);
}

#[test]
fn context_mode_keeps_history() {
    let mut s = ChatSession::new(true);
    for i in 0..6 {
        assert_eq!(s.on_input(Some(format!("q{}", i))), InputAction::Send);
        s.record_reply(format!("a{}", i));
    }
    assert_eq!(s.messages().len(), 12);
    s.on_input(Some("q6".to_string()));
    let m = s.messages();
    assert_eq!(m.len(), 11);
    assert_eq!(m[0], msg("user", "q1"));
    assert_eq!(m[10], msg("user", "q6"));
}

#[test]
fn without_context_only_the_last_message() {
    let mut s = ChatSession::new(false);
    s.on_input(Some("first".to_string()));
    s.record_reply("reply".to_string());
    s.on_input(Some("second".to_string()));
    assert_eq!(s.messages(), &vec![msg("user", "second")]);
}

#[test]
fn log_lines() {
    assert_eq!(log_line("2024-01-02 03:04:05", "user", "hello"), "2024-01-02 03:04:05 user: hello\n");
}

#[test]
fn settings() {
    assert_eq!(parse_flag("true"), Some(true));
    assert_eq!(parse_flag("false"), Some(false));
    assert_eq!(parse_flag("yes"), None);
    assert_eq!(parse_flag("True"), None);
    assert!(is_supported_model("gpt-4-32k"));
    assert!(!is_supported_model("gpt-5"));
    assert_eq!(select_model(None), Some("gpt-3.5-turbo".to_string()));
    assert_eq!(select_model(Some("gpt-4")), Some("gpt-4".to_string()));
    assert_eq!(select_model(Some("other")), None);
}
