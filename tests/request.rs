use gpto::error::CoreError;
use gpto::output::{join_completions, render_completions};
use gpto::prompt::string_or_stdin;
use gpto::resolve::{EffectiveConfig, Milli};
use gpto::transport::{check_status, show_progress, Call, Outcome};
use gpto::version::{is_outdated, should_check_version};
use gpto::wire::{
    bearer, build_chat_body, build_prompt_body, completions_url, put_message, write_decimal,
    write_milli, Message, Role,
};

fn effective(model: &str, max_tokens: u32, n: u8, temperature: u32, top_p: u32) -> EffectiveConfig {
    EffectiveConfig {
        token: String::from("tok"),
        model: String::from(model),
        endpoint: String::from("https://api.openai.com"),
        timeout: 30,
        max_tokens,
        temperature: Milli { thousandths: temperature },
        top_p: Milli { thousandths: top_p },
        sample_count: n,
        suffix: String::new(),
        disable_spinner: true,
    }
}

fn milli(t: u32) -> String {
    let mut s = String::new();
    write_milli(&mut s, Milli { thousandths: t });
    s
}

#[test]
fn end_to_end_prompt() {
    let c = effective("m", 50, 1, 1000, 1000);
    let body = build_prompt_body(&c, "hello");
    assert_eq!(
        body,
        r#"{"model":"m","max_tokens":50,"messages":[{"role":"user","content":"hello"}],"n":1,"temperature":1.0,"top_p":1.0}"#
    );
    let parsed: serde_json::Value = serde_json::from_str(&body).unwrap();
    assert_eq!(parsed["messages"][0]["content"], "hello");
    assert_eq!(render_completions(&vec![String::from("hi")], &c.suffix), "hi");
}

#[test]
fn body_carries_every_message_in_order() {
    let c = effective("gpt-4", 1000, 2, 900, 100);
    let mut ms: Vec<Message> = Vec::new();
    put_message(&mut ms, Role::System, "be brief");
    put_message(&mut ms, Role::User, "say \"hi\"");
    put_message(&mut ms, Role::Assistant, "hi");
    let body = build_chat_body(&c, &ms);
    assert_eq!(
        body,
        r#"{"model":"gpt-4","max_tokens":1000,"messages":[{"role":"system","content":"be brief"},{"role":"user","content":"say \"hi\""},{"role":"assistant","content":"hi"}],"n":2,"temperature":0.9,"top_p":0.1}"#
    );
    let parsed: serde_json::Value = serde_json::from_str(&body).unwrap();
    assert_eq!(parsed["messages"][1]["content"], "say \"hi\"");
}

#[test]
fn body_with_no_messages() {
    let c = effective("m", 7, 1, 0, 1000);
    assert_eq!(
        build_chat_body(&c, &Vec::new()),
        r#"{"model":"m","max_tokens":7,"messages":[],"n":1,"temperature":0.0,"top_p":1.0}"#
    );
}

#[test]
fn quoting_escapes_control_characters() {
    let c = effective("m", 1, 1, 1000, 1000);
    let body = build_prompt_body(&c, "line\nbreak\\");
    assert!(body.contains(r#""content":"line\nbreak\\""#));
}

#[test]
fn milli_numbers() {
    assert_eq!(milli(1000), "1.0");
    assert_eq!(milli(0), "0.0");
    assert_eq!(milli(250), "0.25");
    assert_eq!(milli(125), "0.125");
    assert_eq!(milli(2000), "2.0");
    assert_eq!(milli(1500), "1.5");
    assert_eq!(milli(5), "0.005");
    assert_eq!(milli(4294967295), "4294967.295");
}

#[test]
fn decimal_numbers() {
    let mut s = String::from("n=");
    write_decimal(&mut s, 0);
    assert_eq!(s, "n=0");
    let mut s = String::new();
    write_decimal(&mut s, 18446744073709551615);
    assert_eq!(s, "18446744073709551615");
    let mut s = String::new();
    write_decimal(&mut s, 1000);
    assert_eq!(s, "1000");
}

#[test]
fn role_names() {
    assert_eq!(Role::System.name(), "system");
    assert_eq!(Role::User.name(), "user");
    assert_eq!(Role::Assistant.name(), "assistant");
}

#[test]
fn put_message_appends() {
    let mut ms: Vec<Message> = Vec::new();
    put_message(&mut ms, Role::User, "a");
    put_message(&mut ms, Role::Assistant, "b");
    assert_eq!(ms.len(), 2);
    assert_eq!(ms[0].role, Role::User);
    assert_eq!(ms[0].content, "a");
    assert_eq!(ms[1].role, Role::Assistant);
    assert_eq!(ms[1].content, "b");
}

#[test]
fn urls_and_headers() {
    assert_eq!(
        completions_url("https://api.openai.com"),
        "https://api.openai.com/v1/chat/completions"
    );
    assert_eq!(bearer("abc"), "Bearer abc");
}

#[test]
fn two_samples_join_with_one_suffix() {
    let texts = vec![String::from("a"), String::from("b")];
    assert_eq!(render_completions(&texts, "!"), "a\n\n---\n\nb!");
}

#[test]
fn join_edge_cases() {
    assert_eq!(join_completions(&Vec::new()), "");
    assert_eq!(render_completions(&Vec::new(), "!"), "!");
    assert_eq!(join_completions(&vec![String::from("only")]), "only");
    let three = vec![String::from("x"), String::from(""), String::from("z")];
    assert_eq!(join_completions(&three), "x\n\n---\n\n\n\n---\n\nz");
}

#[test]
fn prompt_from_text_and_stdin() {
    assert_eq!(string_or_stdin(&Some(String::from("hi")), &None), Ok(String::from("hi")));
    assert_eq!(
        string_or_stdin(&Some(String::from("hi")), &Some(String::from("there"))),
        Ok(String::from("hi\nthere"))
    );
    assert_eq!(string_or_stdin(&None, &Some(String::new())), Ok(String::from("\n")));
    assert_eq!(string_or_stdin(&None, &None), Err(CoreError::NoPrompt));
    assert_eq!(string_or_stdin(&Some(String::new()), &None), Err(CoreError::NoPrompt));
}

#[test]
fn status_classification() {
    assert_eq!(check_status(200, String::from("{}")), Ok(String::from("{}")));
    assert_eq!(check_status(299, String::from("x")), Ok(String::from("x")));
    assert_eq!(
        check_status(404, String::from("nope")),
        Err(CoreError::HttpStatus { status: 404, body: String::from("nope") })
    );
    assert!(check_status(199, String::new()).is_err());
    assert!(check_status(300, String::new()).is_err());
}

#[test]
fn progress_indicator_decision() {
    assert!(show_progress(false, false));
    assert!(!show_progress(true, false));
    assert!(!show_progress(false, true));
    assert!(!show_progress(true, true));
}

#[test]
fn version_check_decisions() {
    assert!(should_check_version(0));
    assert!(should_check_version(10));
    assert!(!should_check_version(11));
    assert!(!should_check_version(100));
    assert!(is_outdated("0.2.1", "0.2.0"));
    assert!(!is_outdated("0.2.1", "0.2.1"));
}

#[test]
fn error_messages() {
    assert_eq!(CoreError::NoPrompt.message(), "No prompt provided");
    assert_eq!(CoreError::MissingCredential.message(), "No API token was found");
    assert_eq!(
        CoreError::HttpStatus { status: 401, body: String::from("denied") }.message(),
        "Error: status 401\ndenied"
    );
    assert_eq!(
        CoreError::Transport(String::from("timed out")).message(),
        "Did not get response from server\ntimed out"
    );
    assert_eq!(
        CoreError::MalformedResponse(String::from("no choices")).message(),
        "Could not serialize response from chat completion"
    );
    assert_eq!(
        CoreError::UnreadableBody(String::from("reset")).message(),
        "Could not read response text"
    );
    assert_eq!(CoreError::Input(String::from("eof")).message(), "eof");
    assert_eq!(CoreError::NoConfigDir.message(), "Could not find config directory");
    assert_eq!(
        CoreError::ConfigDirNotText.message(),
        "Could not convert config directory to string"
    );
}

#[test]
fn call_stops_indicator_on_every_outcome() {
    for (flag, env) in [(false, false), (true, false), (false, true), (true, true)] {
        let outcomes = vec![
            Outcome::Answered { status: 200, body: String::from("ok") },
            Outcome::Answered { status: 500, body: String::from("boom") },
            Outcome::Unreachable(String::from("timed out")),
            Outcome::Unreadable(String::from("reset")),
        ];
        for o in outcomes {
            let call = Call::begin(flag, env);
            assert_eq!(call.indicator, !flag && !env);
            let f = call.finish(o);
            assert_eq!(f.stop_indicator, call.indicator);
        }
    }
}

#[test]
fn call_outcomes_are_classified() {
    let call = Call::begin(true, false);
    let f = call.finish(Outcome::Answered { status: 201, body: String::from("{}") });
    assert_eq!(f.result, Ok(String::from("{}")));
    let f = call.finish(Outcome::Answered { status: 429, body: String::from("slow down") });
    assert_eq!(f.result, Err(CoreError::HttpStatus { status: 429, body: String::from("slow down") }));
    let f = call.finish(Outcome::Unreachable(String::from("dns")));
    assert_eq!(f.result, Err(CoreError::Transport(String::from("dns"))));
    let f = call.finish(Outcome::Unreadable(String::from("reset")));
    assert_eq!(f.result, Err(CoreError::UnreadableBody(String::from("reset"))));
    assert_eq!(f.result.unwrap_err().message(), "Could not read response text");
}

#[test]
fn quoting_follows_the_escape_table() {
    let c = effective("m", 1, 1, 1000, 1000);
    let body = build_prompt_body(&c, "a\"b\\c\u{8}\t\n\u{c}\r\u{1}\u{1f} \u{7f}/\u{e9}");
    let want = "\"content\":\"a\\\"b\\\\c\\b\\t\\n\\f\\r\\u0001\\u001f \u{7f}/\u{e9}\"";
    assert!(body.contains(want), "{body}");
}
