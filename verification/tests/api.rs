use tella::api::{
    advance, begin, cerebras_prompt, content_of_cerebras, content_of_ollama, explanation_of,
    explanation_prompt, ollama_prompt, Backend, Pending, ProviderError, Reply, ShellKind, Step,
};
use tella::parser::DecodeError;
use tella::settings::{OutputSettings, Settings};
use tella::suggestion::Severity;

fn ollama_settings(output: OutputSettings) -> Settings {
    Settings::for_ollama("llama3".to_string(), "http://box:11434".to_string(), output)
}

fn envelope(content: &str) -> String {
    let mut out = String::from("{\"response\":\"");
    for c in content.chars() {
        match c {
            '"' => out.push_str("\\\""),
            '\\' => out.push_str("\\\\"),
            '\n' => out.push_str("\\n"),
            other => out.push(other),
        }
    }
    out.push_str("\"}");
    out
}

#[test]
fn shells_follow_the_operating_system() {
    assert_eq!(ShellKind::for_os("windows"), ShellKind::PowerShell);
    assert_eq!(ShellKind::for_os("linux"), ShellKind::Bash);
    assert_eq!(ShellKind::for_os("macos"), ShellKind::Shell);
    assert_eq!(ShellKind::for_os("freebsd"), ShellKind::Shell);
    assert_eq!(ShellKind::PowerShell.name(), "PowerShell");
    assert_eq!(ShellKind::Bash.name(), "bash");
    assert_eq!(ShellKind::Shell.name(), "shell");
}

#[test]
fn ollama_prompt_asks_for_the_fields_shown() {
    let all = ollama_prompt(ShellKind::Bash, "list files", &OutputSettings::default());
    assert_eq!(
        all,
        "Suggest the best bash command for: list files\n\nRespond with ONLY valid JSON (no markdown, no extra text):\n{\n    \"command\": \"exact command\",\n    \"description\": \"brief desc\",\n    \"severity\": \"safe|warning|dangerous\",\n    \"severity_description\": \"risk\"\n}\n\nIf not a task, use \"no command returned\" for command."
    );
    let only_command = ollama_prompt(
        ShellKind::PowerShell,
        "q",
        &OutputSettings {
            show_command: true,
            show_description: false,
            show_explanation: true,
            show_severity: false,
        },
    );
    assert_eq!(
        only_command,
        "Suggest the best PowerShell command for: q\n\nRespond with ONLY valid JSON (no markdown, no extra text):\n{\n    \"command\": \"exact command\"\n}\n\nIf not a task, use \"no command returned\" for command."
    );
    let nothing = ollama_prompt(
        ShellKind::Shell,
        "q",
        &OutputSettings {
            show_command: false,
            show_description: false,
            show_explanation: false,
            show_severity: false,
        },
    );
    assert!(nothing.contains("{\n    \n}"));
}

#[test]
fn cerebras_and_explanation_prompts_are_fixed_texts() {
    assert_eq!(
        cerebras_prompt(ShellKind::Bash, "list files", &OutputSettings::default()),
        "Suggest the best bash command for: list files\n\nIf it's a task, respond with JSON:\n{\n    \"command\": \"exact command\",\n    \"description\": \"brief desc\",\n    \"explanation\": \"details\",\n    \"severity\": \"safe|warning|dangerous\",\n    \"severity_description\": \"risk\"\n}\n\nIf not a task, use \"no command returned\"."
    );
    assert_eq!(
        cerebras_prompt(
            ShellKind::Bash,
            "q",
            &OutputSettings {
                show_command: true,
                show_description: false,
                show_explanation: true,
                show_severity: false,
            },
        ),
        "Suggest the best bash command for: q\n\nIf it's a task, respond with JSON:\n{\n    \"command\": \"exact command\",\n    \"explanation\": \"details\"\n}\n\nIf not a task, use \"no command returned\"."
    );
    assert_eq!(
        explanation_prompt(ShellKind::Bash, "ls -la"),
        "Provide a detailed explanation for this bash command: ls -la\n\nRespond with ONLY valid JSON (no markdown, no extra text):\n{\n    \"explanation\": \"detailed explanation of what this command does and why it's recommended\"\n}\n"
    );
}

#[test]
fn begin_asks_the_local_backend_with_a_bounded_wait() {
    match begin("list files", &ollama_settings(OutputSettings::default()), "linux") {
        Step::Ask(request, Pending::Suggestion(exchange)) => {
            assert_eq!(request.backend, Backend::Ollama);
            assert_eq!(request.url, "http://box:11434/api/generate");
            assert_eq!(request.api_key, None);
            assert_eq!(request.model, "llama3");
            assert_eq!(request.system, None);
            assert_eq!(
                request.prompt,
                ollama_prompt(ShellKind::Bash, "list files", &OutputSettings::default())
            );
            assert_eq!(request.timeout_secs, Some(120));
            assert_eq!(exchange.base_url, "http://box:11434");
            assert_eq!(exchange.shell, ShellKind::Bash);
        }
        other => panic!("unexpected step {:?}", other),
    }
    let mut settings = ollama_settings(OutputSettings::default());
    settings.ollama_base_url = None;
    match begin("q", &settings, "windows") {
        Step::Ask(request, _) => assert_eq!(request.url, "http://localhost:11434/api/generate"),
        other => panic!("unexpected step {:?}", other),
    }
}

#[test]
fn begin_asks_the_cloud_backend_without_a_limit() {
    let settings =
        Settings::for_cerebras("csk".to_string(), "llama3.1-8b".to_string(), OutputSettings::default());
    match begin("list files", &settings, "macos") {
        Step::Ask(request, Pending::Suggestion(_)) => {
            assert_eq!(request.backend, Backend::Cerebras);
            assert_eq!(request.url, "https://api.cerebras.ai/v1/chat/completions");
            assert_eq!(request.api_key.as_deref(), Some("csk"));
            assert_eq!(request.model, "llama3.1-8b");
            assert_eq!(
                request.system.as_deref(),
                Some("You are a command suggestion tool. Suggest commands or 'no command returned'. Always JSON.")
            );
            assert_eq!(
                request.prompt,
                cerebras_prompt(ShellKind::Shell, "list files", &OutputSettings::default())
            );
            assert_eq!(request.timeout_secs, None);
        }
        other => panic!("unexpected step {:?}", other),
    }
}

fn configuration_error(settings: &Settings) -> String {
    match begin("q", settings, "linux") {
        Step::Done(Err(ProviderError::Configuration(m))) => m,
        other => panic!("unexpected step {:?}", other),
    }
}

#[test]
fn begin_refuses_settings_that_do_not_say_whom_to_ask() {
    let mut s = ollama_settings(OutputSettings::default());
    s.ollama_model = None;
    assert_eq!(
        configuration_error(&s),
        "Ollama model not configured. Run 'tella --settings' to set it up."
    );
    let mut c = Settings::for_cerebras("k".to_string(), "m".to_string(), OutputSettings::default());
    c.cerebras_api_key = None;
    assert_eq!(
        configuration_error(&c),
        "Cerebras API key not configured. Run 'tella --settings' to set it up."
    );
    let mut d = Settings::for_cerebras("k".to_string(), "m".to_string(), OutputSettings::default());
    d.ollama_model = None;
    assert_eq!(
        configuration_error(&d),
        "Cerebras model not configured. Run 'tella --settings' to set it up."
    );
    let mut e = ollama_settings(OutputSettings::default());
    e.provider = "openai".to_string();
    assert_eq!(
        configuration_error(&e),
        "Invalid provider in settings. Run 'tella --settings' to set it up."
    );
}

fn pending(settings: &Settings) -> Pending {
    match begin("list files", settings, "linux") {
        Step::Ask(_, pending) => pending,
        other => panic!("unexpected step {:?}", other),
    }
}

#[test]
fn a_task_is_followed_by_one_request_for_the_explanation() {
    let settings = ollama_settings(OutputSettings::default());
    let body = envelope("{\"command\":\"ls -la\",\"description\":\"list\",\"severity\":\"safe\",\"severity_description\":\"reads\"}");
    let (request, next) = match advance(pending(&settings), Reply::Body(body)) {
        Step::Ask(request, next) => (request, next),
        other => panic!("unexpected step {:?}", other),
    };
    assert_eq!(request.url, "http://box:11434/api/generate");
    assert_eq!(request.model, "llama3");
    assert_eq!(request.prompt, explanation_prompt(ShellKind::Bash, "ls -la"));
    assert_eq!(request.timeout_secs, Some(60));
    assert!(matches!(next, Pending::Explanation(_)));
    let answer = envelope("{\"explanation\":\"lists all files\"}");
    match advance(next, Reply::Body(answer)) {
        Step::Done(Ok(s)) => {
            assert_eq!(s.command, "ls -la");
            assert_eq!(s.description, "list");
            assert_eq!(s.explanation, "lists all files");
            assert_eq!(s.severity, Severity::Safe);
            assert_eq!(s.severity_description, "reads");
        }
        other => panic!("unexpected step {:?}", other),
    }
}

#[test]
fn a_failed_explanation_never_fails_the_suggestion() {
    let settings = ollama_settings(OutputSettings::default());
    let body = envelope("{\"command\":\"ls\",\"explanation\":\"first\"}");
    for reply in [
        Reply::TimedOut,
        Reply::ConnectionFailed("refused".to_string()),
        Reply::Unreadable("reset".to_string()),
        Reply::Body("garbage".to_string()),
        Reply::Body("{\"response\":\"no json\"}".to_string()),
        Reply::Body("{\"response\":\"{\\\"other\\\":1}\"}".to_string()),
        Reply::Body("{\"other\":1}".to_string()),
    ] {
        let next = match advance(pending(&settings), Reply::Body(body.clone())) {
            Step::Ask(_, next) => next,
            other => panic!("unexpected step {:?}", other),
        };
        match advance(next, reply) {
            Step::Done(Ok(s)) => {
                assert_eq!(s.command, "ls");
                assert_eq!(s.explanation, "first");
            }
            other => panic!("unexpected step {:?}", other),
        }
    }
}

#[test]
fn explanation_is_read_from_the_text_or_from_its_span() {
    assert_eq!(
        explanation_of(&envelope("{\"explanation\":\"e\"}")),
        Some("e".to_string())
    );
    assert_eq!(
        explanation_of(&envelope("Here: {\"explanation\":\"e\"} done")),
        Some("e".to_string())
    );
    assert_eq!(explanation_of(&envelope("{\"explanation\":5}")), None);
    assert_eq!(explanation_of(&envelope("[{\"explanation\":\"e\"}]")), None);
    assert_eq!(explanation_of("{\"response\":7}"), None);
    assert_eq!(explanation_of("oops"), None);
}

#[test]
fn not_a_task_skips_the_explanation() {
    let settings = ollama_settings(OutputSettings::default());
    let body = envelope("{\"command\":\"no command returned\",\"description\":\"just chatting\"}");
    match advance(pending(&settings), Reply::Body(body)) {
        Step::Done(Ok(s)) => {
            assert!(s.is_not_a_task());
            assert_eq!(s.description, "just chatting");
            assert_eq!(s.explanation, "Unable to find a suitable command for this request.");
        }
        other => panic!("unexpected step {:?}", other),
    }
}

#[test]
fn hidden_fields_are_dropped_and_the_explanation_is_not_fetched() {
    let output = OutputSettings {
        show_command: true,
        show_description: true,
        show_explanation: false,
        show_severity: false,
    };
    let body = envelope("{\"command\":\"ls\",\"explanation\":\"x\",\"severity\":\"dangerous\",\"severity_description\":\"y\"}");
    match advance(pending(&ollama_settings(output)), Reply::Body(body)) {
        Step::Done(Ok(s)) => {
            assert_eq!(s.command, "ls");
            assert_eq!(s.explanation, "");
            assert_eq!(s.severity, Severity::Unknown);
            assert_eq!(s.severity_description, "");
        }
        other => panic!("unexpected step {:?}", other),
    }
}

fn error_after(settings: &Settings, reply: Reply) -> ProviderError {
    match advance(pending(settings), reply) {
        Step::Done(Err(e)) => e,
        other => panic!("unexpected step {:?}", other),
    }
}

#[test]
fn local_failures_are_told_apart() {
    let s = ollama_settings(OutputSettings::default());
    let e = error_after(&s, Reply::ConnectionFailed("refused".to_string()));
    assert!(matches!(e, ProviderError::Connection(_)));
    assert_eq!(
        e.message(),
        "❌ Ollama connection failed: refused. Make sure Ollama is running on http://box:11434"
    );
    let t = error_after(&s, Reply::TimedOut);
    assert!(matches!(t, ProviderError::Timeout(_)));
    assert_eq!(
        t.message(),
        "❌ Ollama request timeout after 120 seconds on http://box:11434. Is the model too large or is Ollama still loading?"
    );
    let u = error_after(&s, Reply::Unreadable("reset".to_string()));
    assert!(matches!(u, ProviderError::Connection(_)));
    assert_eq!(u.message(), "Failed to read Ollama response: reset");
    let f = error_after(&s, Reply::Body("<html>".to_string()));
    assert!(matches!(f, ProviderError::ResponseFormat(_)));
    assert_eq!(
        f.message(),
        "Failed to parse Ollama response: expected value at line 1 column 1"
    );
    let g = error_after(&s, Reply::Body("{\"error\":\"model not found\"}".to_string()));
    assert!(matches!(g, ProviderError::ResponseFormat(_)));
    assert_eq!(g.message(), "Invalid response format from Ollama");
    let p = error_after(&s, Reply::Body(envelope("I cannot help with that")));
    match &p {
        ProviderError::ParseRecovery(f) => {
            assert!(matches!(f.error, DecodeError::Syntax(_)));
            assert_eq!(f.snippet, "I cannot help with that");
        }
        other => panic!("unexpected error {:?}", other),
    }
    assert_eq!(
        p.message(),
        "Failed to parse command suggestion: expected value at line 1 column 1"
    );
}

#[test]
fn cloud_answers_are_read_from_the_first_choice() {
    let body = "{\"choices\":[{\"message\":{\"role\":\"assistant\",\"content\":\"```json\\n{\\\"command\\\":\\\"ls\\\",\\\"explanation\\\":\\\"e\\\",\\\"severity\\\":\\\"safe\\\"}\\n```\"}}]}";
    assert_eq!(
        content_of_cerebras(body).unwrap(),
        "```json\n{\"command\":\"ls\",\"explanation\":\"e\",\"severity\":\"safe\"}\n```"
    );
    let settings =
        Settings::for_cerebras("k".to_string(), "m".to_string(), OutputSettings::default());
    match advance(pending(&settings), Reply::Body(body.to_string())) {
        Step::Done(Ok(s)) => {
            assert_eq!(s.command, "ls");
            assert_eq!(s.explanation, "e");
            assert_eq!(s.severity, Severity::Safe);
        }
        other => panic!("unexpected step {:?}", other),
    }
}

#[test]
fn cloud_failures_are_told_apart() {
    let s = Settings::for_cerebras("k".to_string(), "m".to_string(), OutputSettings::default());
    let limited = error_after(
        &s,
        Reply::Body("{\"type\":\"too_many_requests_error\",\"message\":\"slow down\"}".to_string()),
    );
    assert!(matches!(limited, ProviderError::RateLimit(_)));
    assert_eq!(limited.message(), "slow down");
    let bare = error_after(&s, Reply::Body("{\"type\":\"too_many_requests_error\"}".to_string()));
    assert!(matches!(bare, ProviderError::RateLimit(_)));
    assert_eq!(bare.message(), "API rate limit exceeded");
    let other = error_after(&s, Reply::Body("{\"type\":\"auth_error\"}".to_string()));
    assert!(matches!(other, ProviderError::ResponseFormat(_)));
    assert_eq!(other.message(), "Invalid response format from API");
    let empty = error_after(&s, Reply::Body("{\"choices\":[]}".to_string()));
    assert_eq!(empty.message(), "Invalid response format from API");
    let text = error_after(&s, Reply::Body("oops".to_string()));
    assert_eq!(text.message(), "Failed to parse response: expected value at line 1 column 1");
    let failed = error_after(&s, Reply::ConnectionFailed("dns".to_string()));
    assert!(matches!(failed, ProviderError::Connection(_)));
    assert_eq!(failed.message(), "Request failed: dns");
    let unread = error_after(&s, Reply::Unreadable("reset".to_string()));
    assert_eq!(unread.message(), "Failed to read response: reset");
    let late = error_after(&s, Reply::TimedOut);
    assert!(matches!(late, ProviderError::Timeout(_)));
    assert_eq!(late.message(), "Request timed out");
}

#[test]
fn envelope_of_the_local_backend_holds_the_text_under_response() {
    assert_eq!(content_of_ollama("{\"response\":\"hi\",\"done\":true}").unwrap(), "hi");
    assert!(matches!(
        content_of_ollama("{\"response\":null}"),
        Err(ProviderError::ResponseFormat(_))
    ));
}

#[test]
fn the_cloud_backend_recovers_a_span_right_after_a_fence() {
    let settings =
        Settings::for_cerebras("k".to_string(), "m".to_string(), OutputSettings::default());
    let body = "{\"choices\":[{\"message\":{\"content\":\"```{\\\"command\\\":\\n\\\"ls\\\"}\"}}]}";
    assert_eq!(content_of_cerebras(body).unwrap(), "```{\"command\":\n\"ls\"}");
    match advance(pending(&settings), Reply::Body(body.to_string())) {
        Step::Done(Ok(s)) => {
            assert_eq!(s.command, "ls");
            assert_eq!(s.description, "");
            assert_eq!(s.severity, Severity::Unknown);
        }
        other => panic!("unexpected step {:?}", other),
    }
}
