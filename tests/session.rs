use gpto::resolve::{EffectiveConfig, Milli};
use gpto::session::{is_termination, Session, SessionState, Step};
use gpto::wire::{build_chat_body, Role};

fn effective() -> EffectiveConfig {
    EffectiveConfig {
        token: String::from("tok"),
        model: String::from("m"),
        endpoint: String::from("https://api.openai.com"),
        timeout: 30,
        max_tokens: 50,
        temperature: Milli { thousandths: 1000 },
        top_p: Milli { thousandths: 1000 },
        sample_count: 1,
        suffix: String::new(),
        disable_spinner: true,
    }
}

#[test]
fn history_grows_by_two_per_turn() {
    let c = effective();
    let mut s = Session::start(Some("be brief"));
    assert_eq!(s.history.len(), 1);
    for n in 1..=3 {
        match s.on_input(&format!("question {n}"), &c) {
            Step::Send(body) => assert_eq!(body, build_chat_body(&c, &s.history)),
            Step::Quit => panic!("a question must not end the session"),
        }
        assert_eq!(s.state, SessionState::Requesting);
        let out = s.on_reply(&vec![format!("answer {n}")]);
        assert_eq!(out, format!("answer {n}"));
        assert_eq!(s.state, SessionState::AwaitingInput);
        assert_eq!(s.history.len(), 1 + 2 * n);
    }
    assert_eq!(s.history[0].role, Role::System);
    assert_eq!(s.history[0].content, "be brief");
    for i in 1..s.history.len() {
        let want = if i % 2 == 1 { Role::User } else { Role::Assistant };
        assert_eq!(s.history[i].role, want);
    }
    assert_eq!(s.history[5].content, "question 3");
    assert_eq!(s.history[6].content, "answer 3");
}

#[test]
fn empty_instructions_still_seed_the_history() {
    let s = Session::start(Some(""));
    assert_eq!(s.history.len(), 1);
    assert_eq!(s.history[0].role, Role::System);
    assert_eq!(s.history[0].content, "");
    let s = Session::start(None);
    assert_eq!(s.history.len(), 0);
}

#[test]
fn quit_words_end_the_session() {
    let c = effective();
    for word in ["quit", "q", "  quit", "q\n", "\tquit ", "\u{3000}q\u{a0}"] {
        let mut s = Session::start(Some("x"));
        assert!(matches!(s.on_input(word, &c), Step::Quit));
        assert_eq!(s.state, SessionState::Done);
        assert_eq!(s.history.len(), 1);
    }
}

#[test]
fn quit_words_are_case_sensitive() {
    let c = effective();
    for word in ["Quit", "Q", "quit now", "qq", ""] {
        let mut s = Session::start(None);
        assert!(matches!(s.on_input(word, &c), Step::Send(_)));
        assert_eq!(s.state, SessionState::Requesting);
        assert_eq!(s.history.len(), 1);
        assert_eq!(s.history[0].content, word);
    }
}

#[test]
fn several_samples_form_one_assistant_message() {
    let c = effective();
    let mut s = Session::start(None);
    let _ = s.on_input("hi", &c);
    let out = s.on_reply(&vec![String::from("a"), String::from("b")]);
    assert_eq!(out, "a\n\n---\n\nb");
    assert_eq!(s.history[1].role, Role::Assistant);
    assert_eq!(s.history[1].content, "a\n\n---\n\nb");
}

#[test]
fn termination_words() {
    assert!(is_termination("quit"));
    assert!(is_termination("q"));
    assert!(!is_termination("QUIT"));
    assert!(!is_termination("exit"));
    assert!(!is_termination(""));
    assert!(!is_termination(" q"));
}

#[test]
fn earlier_history_is_a_prefix_of_later() {
    let c = effective();
    let mut s = Session::start(Some("sys"));
    let _ = s.on_input("one", &c);
    let first = s.history.clone();
    let _ = s.on_reply(&vec![String::from("1")]);
    let _ = s.on_input("two", &c);
    assert_eq!(s.history.len(), first.len() + 2);
    for (a, b) in first.iter().zip(s.history.iter()) {
        assert_eq!(a.role, b.role);
        assert_eq!(a.content, b.content);
    }
    assert_eq!(s.history.iter().filter(|m| m.role == Role::System).count(), 1);
}
