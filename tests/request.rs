use aicommit::config::Provider;
use aicommit::error::CommitError;
use aicommit::git::{repository_probe_passes, GitDiff};
use aicommit::prompt::{get_system_message, get_user_message, COMMIT_RULES, SYSTEM_MESSAGE};
use aicommit::request::{authorization_value, get_json_body, get_request_body, prepare_request, ApiMessage, ChatCompletionRequest};
use aicommit::text::decimal_text;

fn diff(text: &str) -> GitDiff {
    GitDiff::from_outputs(text.to_string(), "src/a.rs\n")
}

fn provider(key: &str) -> Provider {
    Provider {
        name: "deepseek".to_string(),
        api_key: key.to_string(),
        endpoint: "https://api.deepseek.com/v1/chat/completions".to_string(),
        model: "deepseek-chat".to_string(),
    }
}

#[test]
fn user_message_layout() {
    let m = get_user_message(&diff("+added line"));
    assert!(m.starts_with(
        "Your task is to generate exactly 10 Conventional Commits style commit messages based on the provided git diff.\n## Requirements:"
    ));
    assert!(m.ends_with("Here is the git diff to analyze:\n+added line\n\nProvide only the commit messages without any additional text."));
    assert!(COMMIT_RULES.contains("  - revert: 'Reverts a previous commit'"));
    assert_eq!(get_system_message(), SYSTEM_MESSAGE);
}

#[test]
fn user_message_holds_large_diff_verbatim() {
    let big: String = (0..100_000).map(|i| if i % 61 == 60 { '\n' } else { (b'a' + (i % 26) as u8) as char }).collect();
    let text = format!("{}\"\\\t{}", big, "é");
    let m = get_user_message(&diff(&text));
    assert!(m.contains(&text));
}

#[test]
fn request_fields() {
    let r = get_request_body(&diff("d"), &provider("k"));
    assert_eq!(r.model, "deepseek-chat");
    assert_eq!(r.messages.len(), 2);
    assert_eq!(r.messages[0].role, "system");
    assert_eq!(r.messages[1].role, "user");
    assert_eq!(r.temperature_tenths, Some(7));
    assert_eq!(r.max_tokens, Some(2000));
    assert!(!r.stream);
}

#[test]
fn json_body_exact() {
    let r = ChatCompletionRequest {
        model: "m".to_string(),
        messages: vec![
            ApiMessage { role: "system".to_string(), content: "say \"hi\"".to_string() },
            ApiMessage { role: "user".to_string(), content: "a\\b\nc\u{1}".to_string() },
        ],
        temperature_tenths: Some(7),
        max_tokens: Some(2000),
        stream: false,
    };
    let body = get_json_body(&r).ok().unwrap();
    assert_eq!(
        body,
        r#"{"model":"m","messages":[{"role":"system","content":"say \"hi\""},{"role":"user","content":"a\\b\nc\u0001"}],"temperature":0.7,"max_tokens":2000,"stream":false}"#
    );
    let v: serde_json::Value = serde_json::from_str(&body).unwrap();
    assert_eq!(v["messages"][1]["content"].as_str(), Some("a\\b\nc\u{1}"));
}

#[test]
fn json_body_without_options() {
    let r = ChatCompletionRequest {
        model: "m".to_string(),
        messages: vec![],
        temperature_tenths: None,
        max_tokens: None,
        stream: true,
    };
    assert_eq!(
        get_json_body(&r).ok().unwrap(),
        r#"{"model":"m","messages":[],"temperature":null,"max_tokens":null,"stream":true}"#
    );
}

#[test]
fn same_inputs_same_body() {
    let a = prepare_request(&provider("k"), &diff("+x\n-y")).ok().unwrap();
    let b = prepare_request(&provider("k"), &diff("+x\n-y")).ok().unwrap();
    assert_eq!(a.body, b.body);
    assert_eq!(a.endpoint, "https://api.deepseek.com/v1/chat/completions");
    assert_eq!(a.authorization, "Bearer k");
}

#[test]
fn no_key_no_request() {
    assert!(matches!(prepare_request(&provider(""), &diff("+x")), Err(CommitError::CredentialMissing)));
}

#[test]
fn bearer_fallback() {
    assert_eq!(authorization_value("abc123"), "Bearer abc123");
    assert_eq!(authorization_value("bad\nkey"), "Bearer invalid");
    assert_eq!(authorization_value("del\u{7f}"), "Bearer invalid");
    assert_eq!(authorization_value("tab\tkey"), "Bearer tab\tkey");
}

#[test]
fn decimal_texts() {
    assert_eq!(decimal_text(0), "0");
    assert_eq!(decimal_text(7), "7");
    assert_eq!(decimal_text(2000), "2000");
    assert_eq!(decimal_text(u32::MAX), "4294967295");
}

#[test]
fn staged_names_and_probe() {
    let d = GitDiff::from_outputs("x".to_string(), "a.rs\nb/c.rs\n");
    assert_eq!(d.file_names, vec!["a.rs".to_string(), "b/c.rs".to_string()]);
    assert!(d.has_changes());
    assert!(!GitDiff::from_outputs(String::new(), "").has_changes());
    assert!(repository_probe_passes(true, "true\n"));
    assert!(!repository_probe_passes(true, "false\n"));
}

#[test]
fn failed_probe_is_outside_repository() {
    assert!(!repository_probe_passes(false, ""));
    assert!(!repository_probe_passes(false, "true\n"));
}

#[test]
fn staged_names_follow_lines() {
    let names = |out: &str| GitDiff::from_outputs(String::new(), out).file_names;
    assert_eq!(names("\n"), vec!["".to_string()]);
    assert_eq!(names("a\r\n"), vec!["a".to_string()]);
    assert_eq!(names("a\n\nb"), vec!["a".to_string(), "".to_string(), "b".to_string()]);
    assert_eq!(names("a\r\r\nb\r"), vec!["a\r".to_string(), "b\r".to_string()]);
    assert!(names("").is_empty());
    for out in ["\n", "a\r\n", "a\n\nb", "x\ny\n", "", "a\r\r\nb\r", " a \n"] {
        let expected: Vec<String> = out.lines().map(String::from).collect();
        assert_eq!(names(out), expected);
    }
}
