use tella::api::{advance, begin, ProviderError, Reply, Step};
use tella::cli::{session_menu, Effect, Event, Session, SessionState, Tone};
use tella::settings::{OutputSettings, Settings};
use tella::suggestion::{CommandSuggestion, Severity};

fn suggestion(command: &str) -> CommandSuggestion {
    CommandSuggestion {
        command: command.to_string(),
        description: "list files".to_string(),
        explanation: "shows every file".to_string(),
        severity: Severity::Safe,
        severity_description: "read only".to_string(),
    }
}

fn said(effect: &Effect) -> (&str, Tone, bool) {
    match effect {
        Effect::Say(line) => (line.text.as_str(), line.tone, line.to_error_stream),
        other => panic!("not a line: {:?}", other),
    }
}

fn titles(effect: &Effect) -> Vec<String> {
    match effect {
        Effect::Choose(menu) => {
            (0..menu.option_count()).map(|i| menu.title(i).to_string()).collect()
        }
        other => panic!("not a menu: {:?}", other),
    }
}

#[test]
fn a_session_starts_by_asking_once() {
    let (session, effects) = Session::start("list files", OutputSettings::default());
    assert_eq!(session.state, SessionState::Querying);
    assert!(!session.is_over());
    assert_eq!(effects.len(), 1);
    assert!(matches!(&effects[0], Effect::Ask(q) if q == "list files"));
}

#[test]
fn list_files_scenario_runs_the_command() {
    let settings = Settings::for_ollama(
        "llama3".to_string(),
        "http://localhost:11434".to_string(),
        OutputSettings::default(),
    );
    let (session, _) = Session::start("list files in current directory", settings.output_settings);
    let pending = match begin("list files in current directory", &settings, "linux") {
        Step::Ask(_, pending) => pending,
        other => panic!("unexpected step {:?}", other),
    };
    let body = "{\"response\":\"{\\\"command\\\":\\\"ls -la\\\",\\\"description\\\":\\\"list files\\\",\\\"severity\\\":\\\"safe\\\",\\\"severity_description\\\":\\\"read only\\\"}\"}";
    let pending = match advance(pending, Reply::Body(body.to_string())) {
        Step::Ask(_, pending) => pending,
        other => panic!("unexpected step {:?}", other),
    };
    let answer = match advance(
        pending,
        Reply::Body("{\"response\":\"{\\\"explanation\\\":\\\"shows every file\\\"}\"}".to_string()),
    ) {
        Step::Done(answer) => answer,
        other => panic!("unexpected step {:?}", other),
    };
    let (session, effects) = session.advance(Event::Answered(answer));
    assert_eq!(session.state, SessionState::AwaitingChoice);
    assert_eq!(effects.len(), 5);
    assert!(matches!(effects[0], Effect::ClearIndicator));
    assert_eq!(said(&effects[1]), ("ls -la", Tone::Command, false));
    assert_eq!(said(&effects[2]), ("🟢 SAFE - list files", Tone::Dim, false));
    assert_eq!(said(&effects[3]), ("", Tone::Plain, false));
    assert_eq!(titles(&effects[4]), vec!["Run", "Explain", "Stop"]);
    let (session, effects) = session.advance(Event::Chose(0));
    assert_eq!(session.state, SessionState::Executing);
    assert_eq!(effects.len(), 1);
    assert!(matches!(&effects[0], Effect::Run(c) if c == "ls -la"));
    let (session, effects) = session.advance(Event::Executed(Ok("total 0\n".to_string())));
    assert!(session.is_over());
    assert_eq!(effects.len(), 2);
    assert_eq!(said(&effects[0]), ("\ntotal 0\n", Tone::Plain, false));
    assert!(matches!(effects[1], Effect::Leave(true)));
}

#[test]
fn not_a_task_scenario_rejects_without_a_menu() {
    let settings = Settings::for_ollama(
        "llama3".to_string(),
        "http://localhost:11434".to_string(),
        OutputSettings::default(),
    );
    let pending = match begin("how are you today", &settings, "linux") {
        Step::Ask(_, pending) => pending,
        other => panic!("unexpected step {:?}", other),
    };
    let body = "{\"response\":\"{\\\"command\\\":\\\"ERROR\\\",\\\"description\\\":\\\"This is not a task\\\"}\"}";
    let answer = match advance(pending, Reply::Body(body.to_string())) {
        Step::Done(answer) => answer,
        other => panic!("unexpected step {:?}", other),
    };
    let (session, _) = Session::start("how are you today", settings.output_settings);
    let (session, effects) = session.advance(Event::Answered(answer));
    assert!(session.is_over());
    assert_eq!(effects.len(), 4);
    assert!(matches!(effects[0], Effect::ClearIndicator));
    assert_eq!(said(&effects[1]), ("This is not a task", Tone::Error, true));
    assert_eq!(
        said(&effects[2]),
        ("Unable to find a suitable command for this request.", Tone::Warning, true)
    );
    assert!(matches!(effects[3], Effect::Leave(true)));
    assert!(!effects.iter().any(|e| matches!(e, Effect::Choose(_) | Effect::Run(_))));
}

#[test]
fn a_rejection_takes_no_further_event() {
    for command in ["ERROR", "no command returned"] {
        let (session, _) = Session::start("hi", OutputSettings::default());
        let (mut session, _) = session.advance(Event::Answered(Ok(suggestion(command))));
        for event in [
            Event::Chose(0),
            Event::Chose(1),
            Event::Executed(Ok("x".to_string())),
            Event::MenuFailed("x".to_string()),
            Event::Answered(Ok(suggestion("ls"))),
        ] {
            let (next, effects) = session.advance(event);
            assert!(effects.is_empty());
            assert!(next.is_over());
            session = next;
        }
    }
}

#[test]
fn a_provider_error_is_told_and_ends_badly() {
    let (session, _) = Session::start("q", OutputSettings::default());
    let (session, effects) = session
        .advance(Event::Answered(Err(ProviderError::Timeout("too slow".to_string()))));
    assert!(session.is_over());
    assert_eq!(effects.len(), 3);
    assert!(matches!(effects[0], Effect::ClearIndicator));
    assert_eq!(said(&effects[1]), ("\n❌ Error: too slow", Tone::Error, true));
    assert!(matches!(effects[2], Effect::Leave(false)));
}

fn awaiting(output: OutputSettings) -> (Session, Vec<Effect>) {
    let (session, _) = Session::start("q", output);
    session.advance(Event::Answered(Ok(suggestion("ls -la"))))
}

#[test]
fn display_follows_the_output_settings() {
    let mut o = OutputSettings::default();
    o.show_description = false;
    let (_, effects) = awaiting(o);
    assert_eq!(effects.len(), 5);
    assert_eq!(said(&effects[2]), ("🟢 SAFE", Tone::Success, false));
    let mut o = OutputSettings::default();
    o.show_severity = false;
    let (_, effects) = awaiting(o);
    assert_eq!(said(&effects[2]), ("list files", Tone::Dim, false));
    let o = OutputSettings {
        show_command: false,
        show_description: false,
        show_explanation: false,
        show_severity: false,
    };
    let (_, effects) = awaiting(o);
    assert_eq!(effects.len(), 3);
    assert!(matches!(effects[0], Effect::ClearIndicator));
    assert_eq!(said(&effects[1]), ("", Tone::Plain, false));
    assert_eq!(titles(&effects[2]), vec!["Run", "Stop"]);
}

#[test]
fn severity_labels_have_their_tones() {
    let mut o = OutputSettings::default();
    o.show_description = false;
    for (severity, label, tone) in [
        (Severity::Safe, "🟢 SAFE", Tone::Success),
        (Severity::Warning, "🟡 WARNING", Tone::Warning),
        (Severity::Dangerous, "🔴 DANGEROUS", Tone::Error),
        (Severity::Unknown, "⚪ UNKNOWN", Tone::Plain),
    ] {
        assert_eq!(severity.label(), label);
        let mut s = suggestion("ls");
        s.severity = severity;
        let (session, _) = Session::start("q", o);
        let (_, effects) = session.advance(Event::Answered(Ok(s)));
        assert_eq!(said(&effects[2]), (label, tone, false));
    }
}

#[test]
fn explain_prints_and_asks_again_without_the_backend() {
    let (session, _) = awaiting(OutputSettings::default());
    let (session, effects) = session.advance(Event::Chose(1));
    assert_eq!(session.state, SessionState::AwaitingChoice);
    assert_eq!(effects.len(), 3);
    assert_eq!(said(&effects[0]), ("\nshows every file", Tone::Plain, false));
    assert_eq!(said(&effects[1]), ("", Tone::Plain, false));
    assert_eq!(titles(&effects[2]), vec!["Run", "Explain", "Stop"]);
    let (session, again) = session.advance(Event::Chose(1));
    assert_eq!(again.len(), 3);
    assert!(!again.iter().any(|e| matches!(e, Effect::Ask(_))));
    let (session, effects) = session.advance(Event::Chose(0));
    assert_eq!(session.state, SessionState::Executing);
    assert!(matches!(&effects[0], Effect::Run(c) if c == "ls -la"));
}

#[test]
fn stop_cancel_and_anything_else_say_goodbye() {
    for selected in [2, 3, 7] {
        let (session, _) = awaiting(OutputSettings::default());
        let (session, effects) = session.advance(Event::Chose(selected));
        assert!(session.is_over());
        assert_eq!(effects.len(), 2);
        assert_eq!(said(&effects[0]), ("Goodbye!", Tone::Warning, false));
        assert!(matches!(effects[1], Effect::Leave(true)));
    }
    let mut o = OutputSettings::default();
    o.show_explanation = false;
    let (session, _) = awaiting(o);
    let (session, effects) = session.advance(Event::Chose(1));
    assert!(session.is_over());
    assert_eq!(said(&effects[0]), ("Goodbye!", Tone::Warning, false));
}

#[test]
fn the_end_of_the_command_ends_the_session() {
    let run = |outcome: Result<String, String>| {
        let (session, _) = awaiting(OutputSettings::default());
        let (session, _) = session.advance(Event::Chose(0));
        session.advance(Event::Executed(outcome))
    };
    let (session, effects) = run(Ok(" \n".to_string()));
    assert!(session.is_over());
    assert_eq!(said(&effects[0]), ("✅ Done!", Tone::Success, false));
    let (_, effects) = run(Ok(String::new()));
    assert_eq!(said(&effects[0]), ("✅ Done!", Tone::Success, false));
    let (_, effects) = run(Err("Error: denied".to_string()));
    assert_eq!(said(&effects[0]), ("❌ Error: Error: denied", Tone::Error, true));
    assert!(matches!(effects[1], Effect::Leave(true)));
}

#[test]
fn a_menu_failure_ends_the_session_badly() {
    let (session, _) = awaiting(OutputSettings::default());
    let (session, effects) = session.advance(Event::MenuFailed("no tty".to_string()));
    assert!(session.is_over());
    assert_eq!(said(&effects[0]), ("❌ Error: no tty", Tone::Error, true));
    assert!(matches!(effects[1], Effect::Leave(false)));
}

#[test]
fn events_out_of_turn_change_nothing() {
    let (session, _) = Session::start("q", OutputSettings::default());
    let (session, effects) = session.advance(Event::Chose(0));
    assert_eq!(session.state, SessionState::Querying);
    assert!(effects.is_empty());
    let (session, effects) = session.advance(Event::Executed(Ok("x".to_string())));
    assert_eq!(session.state, SessionState::Querying);
    assert!(effects.is_empty());
    let (session, _) = awaiting(OutputSettings::default());
    let (session, effects) = session.advance(Event::Answered(Ok(suggestion("rm"))));
    assert_eq!(session.state, SessionState::AwaitingChoice);
    assert!(effects.is_empty());
    assert_eq!(session.suggestion.as_ref().map(|s| s.command.as_str()), Some("ls -la"));
}

#[test]
fn the_menu_has_explain_only_where_it_is_shown() {
    let with = session_menu(&OutputSettings::default());
    assert_eq!(with.option_count(), 3);
    assert_eq!(with.title(1), "Explain");
    let mut o = OutputSettings::default();
    o.show_explanation = false;
    let without = session_menu(&o);
    assert_eq!(without.option_count(), 2);
    assert_eq!(without.title(0), "Run");
    assert_eq!(without.title(1), "Stop");
}
