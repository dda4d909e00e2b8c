//! Asking a backend for a suggestion.
//!
//! Sending a request and waiting for the answer is the caller's work. This
//! module decides what is asked and what an answer means: [`begin`] gives
//! the first request, and [`advance`] takes what came back and either asks
//! once more, for the explanation, or ends with the suggestion or an error.
//! One query is one request, or two where an explanation is fetched.

use crate::json::{document, json_fault, Json, JsonValue};
use crate::parser::{
    brace_span, parse_failure_message, parse_suggestion, parsed, span_in_braces, ParseFailure,
    ParseFailureView,
};
use crate::settings::{
    hint_at_setup, lemma_hint_names_setup, names_setup, setup_hint, text_view, OutputSettings,
    Settings, SettingsView,
};
use crate::suggestion::{CommandSuggestion, Severity, SuggestionView};
use crate::text::{join, joined, same_text, texts_of};
use vstd::prelude::*;

verus! {

/// The kind of shell for which commands are asked.
#[derive(Clone, Copy, Debug, PartialEq, Eq, Structural)]
pub enum ShellKind {
    PowerShell,
    Bash,
    Shell,
}

/// The shell of an operating system: PowerShell on `windows`, bash on
/// `linux`, and a plain shell everywhere else.
pub open spec fn shell_for(os: Seq<char>) -> ShellKind {
    if os == "windows"@ {
        ShellKind::PowerShell
    } else if os == "linux"@ {
        ShellKind::Bash
    } else {
        ShellKind::Shell
    }
}

/// The word for a shell in a prompt.
pub open spec fn shell_name(shell: ShellKind) -> Seq<char> {
    match shell {
        ShellKind::PowerShell => "PowerShell"@,
        ShellKind::Bash => "bash"@,
        ShellKind::Shell => "shell"@,
    }
}

impl ShellKind {
    /// The shell of the operating system `os`.
    pub fn for_os(os: &str) -> (r: ShellKind)
        ensures
            r == shell_for(os@),
    {
        if same_text(os, "windows") {
            ShellKind::PowerShell
        } else if same_text(os, "linux") {
            ShellKind::Bash
        } else {
            ShellKind::Shell
        }
    }

    /// The word for the shell in a prompt.
    pub fn name(&self) -> (r: &'static str)
        ensures
            r@ == shell_name(*self),
    {
        match self {
            ShellKind::PowerShell => "PowerShell",
            ShellKind::Bash => "bash",
            ShellKind::Shell => "shell",
        }
    }
}

/// The two shapes of backend.
#[derive(Clone, Copy, Debug, PartialEq, Eq, Structural)]
pub enum Backend {
    /// A local server that takes one prompt and answers under `response`.
    Ollama,
    /// A cloud service that takes chat messages and answers under
    /// `choices[0].message.content`.
    Cerebras,
}

/// One request to a backend.
#[derive(Debug)]
pub struct Request {
    pub backend: Backend,
    pub url: String,
    /// The bearer token, where the backend asks for one.
    pub api_key: Option<String>,
    pub model: String,
    /// The system message, where the backend takes chat messages.
    pub system: Option<String>,
    pub prompt: String,
    /// How long to wait for the answer, in seconds; no limit where `None`.
    pub timeout_secs: Option<u64>,
}

/// The mathematical form of a [`Request`].
pub ghost struct RequestView {
    pub backend: Backend,
    pub url: Seq<char>,
    pub api_key: Option<Seq<char>>,
    pub model: Seq<char>,
    pub system: Option<Seq<char>>,
    pub prompt: Seq<char>,
    pub timeout_secs: Option<u64>,
}

impl View for Request {
    type V = RequestView;

    open spec fn view(&self) -> RequestView {
        RequestView {
            backend: self.backend,
            url: self.url@,
            api_key: text_view(self.api_key),
            model: self.model@,
            system: text_view(self.system),
            prompt: self.prompt@,
            timeout_secs: self.timeout_secs,
        }
    }
}

/// What came of a request.
#[derive(Debug)]
pub enum Reply {
    /// The body of the answer.
    Body(String),
    /// The request could not be sent. Holds the reason.
    ConnectionFailed(String),
    /// No answer came within the time allowed.
    TimedOut,
    /// An answer came, but its body could not be read. Holds the reason.
    Unreadable(String),
}

/// The mathematical form of a [`Reply`].
pub ghost enum ReplyView {
    Body(Seq<char>),
    ConnectionFailed(Seq<char>),
    TimedOut,
    Unreadable(Seq<char>),
}

impl View for Reply {
    type V = ReplyView;

    open spec fn view(&self) -> ReplyView {
        match self {
            Reply::Body(b) => ReplyView::Body(b@),
            Reply::ConnectionFailed(m) => ReplyView::ConnectionFailed(m@),
            Reply::TimedOut => ReplyView::TimedOut,
            Reply::Unreadable(m) => ReplyView::Unreadable(m@),
        }
    }
}

/// Why no suggestion could be had. Each kind but the last holds the line
/// that tells the user of it.
#[derive(Debug)]
pub enum ProviderError {
    /// The settings do not say whom to ask, or with what.
    Configuration(String),
    /// The backend could not be reached, or its answer could not be read.
    Connection(String),
    /// The backend did not answer in time; it may still be loading.
    Timeout(String),
    /// The backend refused for the moment: too many requests.
    RateLimit(String),
    /// The answer does not have the backend's shape.
    ResponseFormat(String),
    /// The answer holds no suggestion, even after recovery.
    ParseRecovery(ParseFailure),
}

/// The mathematical form of a [`ProviderError`].
pub ghost enum ProviderErrorView {
    Configuration(Seq<char>),
    Connection(Seq<char>),
    Timeout(Seq<char>),
    RateLimit(Seq<char>),
    ResponseFormat(Seq<char>),
    ParseRecovery(ParseFailureView),
}

impl View for ProviderError {
    type V = ProviderErrorView;

    open spec fn view(&self) -> ProviderErrorView {
        match self {
            ProviderError::Configuration(m) => ProviderErrorView::Configuration(m@),
            ProviderError::Connection(m) => ProviderErrorView::Connection(m@),
            ProviderError::Timeout(m) => ProviderErrorView::Timeout(m@),
            ProviderError::RateLimit(m) => ProviderErrorView::RateLimit(m@),
            ProviderError::ResponseFormat(m) => ProviderErrorView::ResponseFormat(m@),
            ProviderError::ParseRecovery(f) => ProviderErrorView::ParseRecovery(f@),
        }
    }
}

/// The line that tells the user of a provider error.
pub open spec fn provider_message(error: ProviderErrorView) -> Seq<char> {
    match error {
        ProviderErrorView::Configuration(m) => m,
        ProviderErrorView::Connection(m) => m,
        ProviderErrorView::Timeout(m) => m,
        ProviderErrorView::RateLimit(m) => m,
        ProviderErrorView::ResponseFormat(m) => m,
        ProviderErrorView::ParseRecovery(f) => parse_failure_message(f),
    }
}

impl ProviderError {
    /// The line that tells the user of the error.
    pub fn message(&self) -> (r: String)
        ensures
            r@ == provider_message(self@),
    {
        match self {
            ProviderError::Configuration(m) => m.clone(),
            ProviderError::Connection(m) => m.clone(),
            ProviderError::Timeout(m) => m.clone(),
            ProviderError::RateLimit(m) => m.clone(),
            ProviderError::ResponseFormat(m) => m.clone(),
            ProviderError::ParseRecovery(f) => f.message(),
        }
    }
}

/// What is kept while the request for the suggestion is out.
#[derive(Debug)]
pub struct Exchange {
    pub backend: Backend,
    pub shell: ShellKind,
    /// Where the request went; the request for the explanation goes there too.
    pub url: String,
    /// The backend's address as error messages show it.
    pub base_url: String,
    pub model: String,
    pub output: OutputSettings,
}

/// The mathematical form of an [`Exchange`].
pub ghost struct ExchangeView {
    pub backend: Backend,
    pub shell: ShellKind,
    pub url: Seq<char>,
    pub base_url: Seq<char>,
    pub model: Seq<char>,
    pub output: OutputSettings,
}

impl View for Exchange {
    type V = ExchangeView;

    open spec fn view(&self) -> ExchangeView {
        ExchangeView {
            backend: self.backend,
            shell: self.shell,
            url: self.url@,
            base_url: self.base_url@,
            model: self.model@,
            output: self.output,
        }
    }
}

/// The request that is out.
#[derive(Debug)]
pub enum Pending {
    /// The request for the suggestion.
    Suggestion(Exchange),
    /// The request for the explanation of the suggestion held here.
    Explanation(CommandSuggestion),
}

/// The mathematical form of a [`Pending`].
pub ghost enum PendingView {
    Suggestion(ExchangeView),
    Explanation(SuggestionView),
}

impl View for Pending {
    type V = PendingView;

    open spec fn view(&self) -> PendingView {
        match self {
            Pending::Suggestion(e) => PendingView::Suggestion(e@),
            Pending::Explanation(s) => PendingView::Explanation(s@),
        }
    }
}

/// What the caller does next.
#[derive(Debug)]
pub enum Step {
    /// Send the request, and hand what comes back to [`advance`] together
    /// with the pending state.
    Ask(Request, Pending),
    /// The query is over.
    Done(Result<CommandSuggestion, ProviderError>),
}

/// The mathematical form of a [`Step`].
pub ghost enum StepView {
    Ask(RequestView, PendingView),
    Done(Result<SuggestionView, ProviderErrorView>),
}

impl View for Step {
    type V = StepView;

    open spec fn view(&self) -> StepView {
        match self {
            Step::Ask(r, p) => StepView::Ask(r@, p@),
            Step::Done(Ok(s)) => StepView::Done(Ok(s@)),
            Step::Done(Err(e)) => StepView::Done(Err(e@)),
        }
    }
}

/// Seconds allowed for the suggestion of a local backend.
pub const SUGGESTION_TIMEOUT_SECS: u64 = 120;

/// Seconds allowed for the explanation of a local backend.
pub const EXPLANATION_TIMEOUT_SECS: u64 = 60;

/// The lines that ask for the fields to be shown, in the order command,
/// description, severity and its description. The explanation is never
/// among them: it is asked for on its own.
pub open spec fn requested_fields(output: OutputSettings) -> Seq<Seq<char>> {
    (if output.show_command {
        seq!["\"command\": \"exact command\""@]
    } else {
        Seq::empty()
    }) + (if output.show_description {
        seq!["\"description\": \"brief desc\""@]
    } else {
        Seq::empty()
    }) + (if output.show_severity {
        seq!["\"severity\": \"safe|warning|dangerous\""@, "\"severity_description\": \"risk\""@]
    } else {
        Seq::empty()
    })
}

/// The prompt that asks a local backend for a suggestion.
pub open spec fn ollama_prompt_text(
    shell: ShellKind,
    question: Seq<char>,
    output: OutputSettings,
) -> Seq<char> {
    "Suggest the best "@ + shell_name(shell) + " command for: "@ + question
        + "\n\nRespond with ONLY valid JSON (no markdown, no extra text):\n{\n    "@ + joined(
        requested_fields(output),
        ",\n    "@,
    ) + "\n}\n\nIf not a task, use \"no command returned\" for command."@
}

/// The lines that ask a cloud backend for the fields to be shown, in the
/// order command, description, explanation, severity and its description.
/// A field that is not shown is not asked for.
pub open spec fn requested_cloud_fields(output: OutputSettings) -> Seq<Seq<char>> {
    (if output.show_command {
        seq!["\"command\": \"exact command\""@]
    } else {
        Seq::empty()
    }) + (if output.show_description {
        seq!["\"description\": \"brief desc\""@]
    } else {
        Seq::empty()
    }) + (if output.show_explanation {
        seq!["\"explanation\": \"details\""@]
    } else {
        Seq::empty()
    }) + (if output.show_severity {
        seq!["\"severity\": \"safe|warning|dangerous\""@, "\"severity_description\": \"risk\""@]
    } else {
        Seq::empty()
    })
}

/// The prompt that asks a cloud backend for a suggestion.
pub open spec fn cerebras_prompt_text(
    shell: ShellKind,
    question: Seq<char>,
    output: OutputSettings,
) -> Seq<char> {
    "Suggest the best "@ + shell_name(shell) + " command for: "@ + question
        + "\n\nIf it's a task, respond with JSON:\n{\n    "@ + joined(
        requested_cloud_fields(output),
        ",\n    "@,
    ) + "\n}\n\nIf not a task, use \"no command returned\"."@
}

/// The system message for a cloud backend.
pub open spec fn system_text() -> Seq<char> {
    "You are a command suggestion tool. Suggest commands or 'no command returned'. Always JSON."@
}

/// The prompt that asks for the explanation of a command.
pub open spec fn explanation_prompt_text(shell: ShellKind, command: Seq<char>) -> Seq<char> {
    "Provide a detailed explanation for this "@ + shell_name(shell) + " command: "@ + command
        + "\n\nRespond with ONLY valid JSON (no markdown, no extra text):\n{\n    \"explanation\": \"detailed explanation of what this command does and why it's recommended\"\n}\n"@
}

/// The prompt that asks a local backend for a suggestion.
pub fn ollama_prompt(shell: ShellKind, question: &str, output: &OutputSettings) -> (r: String)
    ensures
        r@ == ollama_prompt_text(shell, question@, *output),
{
    let mut fields: Vec<&str> = Vec::new();
    if output.show_command {
        fields.push("\"command\": \"exact command\"");
    }
    if output.show_description {
        fields.push("\"description\": \"brief desc\"");
    }
    if output.show_severity {
        fields.push("\"severity\": \"safe|warning|dangerous\"");
        fields.push("\"severity_description\": \"risk\"");
    }
    proof {
        assert(texts_of(fields@) =~= requested_fields(*output));
    }
    let list = join(&fields, ",\n    ");
    String::from_str("Suggest the best ").concat(shell.name()).concat(" command for: ").concat(
        question,
    ).concat("\n\nRespond with ONLY valid JSON (no markdown, no extra text):\n{\n    ").concat(
        list.as_str(),
    ).concat("\n}\n\nIf not a task, use \"no command returned\" for command.")
}

/// The prompt that asks a cloud backend for a suggestion.
pub fn cerebras_prompt(shell: ShellKind, question: &str, output: &OutputSettings) -> (r: String)
    ensures
        r@ == cerebras_prompt_text(shell, question@, *output),
{
    let mut fields: Vec<&str> = Vec::new();
    if output.show_command {
        fields.push("\"command\": \"exact command\"");
    }
    if output.show_description {
        fields.push("\"description\": \"brief desc\"");
    }
    if output.show_explanation {
        fields.push("\"explanation\": \"details\"");
    }
    if output.show_severity {
        fields.push("\"severity\": \"safe|warning|dangerous\"");
        fields.push("\"severity_description\": \"risk\"");
    }
    proof {
        assert(texts_of(fields@) =~= requested_cloud_fields(*output));
    }
    let list = join(&fields, ",\n    ");
    String::from_str("Suggest the best ").concat(shell.name()).concat(" command for: ").concat(
        question,
    ).concat("\n\nIf it's a task, respond with JSON:\n{\n    ").concat(list.as_str()).concat(
        "\n}\n\nIf not a task, use \"no command returned\".",
    )
}

/// The prompt that asks for the explanation of a command.
pub fn explanation_prompt(shell: ShellKind, command: &str) -> (r: String)
    ensures
        r@ == explanation_prompt_text(shell, command@),
{
    String::from_str("Provide a detailed explanation for this ").concat(shell.name()).concat(
        " command: ",
    ).concat(command).concat(
        "\n\nRespond with ONLY valid JSON (no markdown, no extra text):\n{\n    \"explanation\": \"detailed explanation of what this command does and why it's recommended\"\n}\n",
    )
}

/// Where a local backend is found when the settings name no address.
pub open spec fn default_base_url() -> Seq<char> {
    "http://localhost:11434"@
}

/// Where the cloud backend takes chat messages.
pub open spec fn cerebras_url() -> Seq<char> {
    "https://api.cerebras.ai/v1/chat/completions"@
}

/// The error of settings that do not say whom to ask, or with what: the
/// reason, and the setup command to run.
pub open spec fn configuration_error(reason: Seq<char>) -> ProviderErrorView {
    ProviderErrorView::Configuration(reason + setup_hint("set it up."@))
}

/// The first step with a local backend: without a model nothing is asked.
pub open spec fn ollama_begun(question: Seq<char>, settings: SettingsView, os: Seq<char>) -> StepView {
    match settings.ollama_model {
        None => StepView::Done(
            Err(configuration_error("Ollama model not configured."@)),
        ),
        Some(model) => {
            let base_url = match settings.ollama_base_url {
                Some(url) => url,
                None => default_base_url(),
            };
            let url = base_url + "/api/generate"@;
            StepView::Ask(
                RequestView {
                    backend: Backend::Ollama,
                    url,
                    api_key: None,
                    model,
                    system: None,
                    prompt: ollama_prompt_text(shell_for(os), question, settings.output_settings),
                    timeout_secs: Some(SUGGESTION_TIMEOUT_SECS),
                },
                PendingView::Suggestion(
                    ExchangeView {
                        backend: Backend::Ollama,
                        shell: shell_for(os),
                        url,
                        base_url,
                        model,
                        output: settings.output_settings,
                    },
                ),
            )
        },
    }
}

/// The first step with the cloud backend: without a key or a model nothing
/// is asked. The wait for its answer has no limit.
pub open spec fn cerebras_begun(question: Seq<char>, settings: SettingsView, os: Seq<char>) -> StepView {
    match (settings.cerebras_api_key, settings.ollama_model) {
        (None, _) => StepView::Done(
            Err(configuration_error("Cerebras API key not configured."@)),
        ),
        (Some(_), None) => StepView::Done(
            Err(configuration_error("Cerebras model not configured."@)),
        ),
        (Some(key), Some(model)) => StepView::Ask(
            RequestView {
                backend: Backend::Cerebras,
                url: cerebras_url(),
                api_key: Some(key),
                model,
                system: Some(system_text()),
                prompt: cerebras_prompt_text(shell_for(os), question, settings.output_settings),
                timeout_secs: None,
            },
            PendingView::Suggestion(
                ExchangeView {
                    backend: Backend::Cerebras,
                    shell: shell_for(os),
                    url: cerebras_url(),
                    base_url: cerebras_url(),
                    model,
                    output: settings.output_settings,
                },
            ),
        ),
    }
}

/// The first step of a query.
pub open spec fn begun(question: Seq<char>, settings: SettingsView, os: Seq<char>) -> StepView {
    if settings.provider == "ollama"@ {
        ollama_begun(question, settings, os)
    } else if settings.provider == "cerebras"@ {
        cerebras_begun(question, settings, os)
    } else {
        StepView::Done(Err(configuration_error("Invalid provider in settings."@)))
    }
}

/// The error for a request that brought no body. A wait that ran out is
/// told apart from a connection that failed.
pub open spec fn reply_error(exchange: ExchangeView, reply: ReplyView) -> ProviderErrorView {
    match exchange.backend {
        Backend::Ollama => match reply {
            ReplyView::ConnectionFailed(reason) => ProviderErrorView::Connection(
                "❌ Ollama connection failed: "@ + reason + ". Make sure Ollama is running on "@
                    + exchange.base_url,
            ),
            ReplyView::Unreadable(reason) => ProviderErrorView::Connection(
                "Failed to read Ollama response: "@ + reason,
            ),
            _ => ProviderErrorView::Timeout(
                "❌ Ollama request timeout after 120 seconds on "@ + exchange.base_url
                    + ". Is the model too large or is Ollama still loading?"@,
            ),
        },
        Backend::Cerebras => match reply {
            ReplyView::ConnectionFailed(reason) => ProviderErrorView::Connection(
                "Request failed: "@ + reason,
            ),
            ReplyView::Unreadable(reason) => ProviderErrorView::Connection(
                "Failed to read response: "@ + reason,
            ),
            _ => ProviderErrorView::Timeout("Request timed out"@),
        },
    }
}

/// The model's text in the answer of a local backend: the string under
/// `response`.
pub open spec fn ollama_content(body: Seq<char>) -> Result<Seq<char>, ProviderErrorView> {
    match document(body) {
        None => Err(
            ProviderErrorView::ResponseFormat(
                "Failed to parse Ollama response: "@ + json_fault(body),
            ),
        ),
        Some(doc) => match doc.text_member("response"@) {
            Some(content) => Ok(content),
            None => Err(ProviderErrorView::ResponseFormat("Invalid response format from Ollama"@)),
        },
    }
}

/// The string under `choices[0].message.content`.
pub open spec fn chat_content(doc: JsonValue) -> Option<Seq<char>> {
    match doc.member("choices"@) {
        Some(choices) => match choices.element(0) {
            Some(choice) => match choice.member("message"@) {
                Some(message) => message.text_member("content"@),
                None => None,
            },
            None => None,
        },
        None => None,
    }
}

/// The model's text in the answer of the cloud backend. An answer of the
/// type `too_many_requests_error` is a rate limit, told with the answer's
/// own message where it has one.
pub open spec fn cerebras_content(body: Seq<char>) -> Result<Seq<char>, ProviderErrorView> {
    match document(body) {
        None => Err(
            ProviderErrorView::ResponseFormat("Failed to parse response: "@ + json_fault(body)),
        ),
        Some(doc) => if doc.text_member("type"@) == Some("too_many_requests_error"@) {
            Err(
                ProviderErrorView::RateLimit(
                    match doc.text_member("message"@) {
                        Some(message) => message,
                        None => "API rate limit exceeded"@,
                    },
                ),
            )
        } else {
            match chat_content(doc) {
                Some(content) => Ok(content),
                None => Err(ProviderErrorView::ResponseFormat("Invalid response format from API"@)),
            }
        },
    }
}

/// A suggestion of a local backend as the settings want it: no severity
/// where it is not shown; a fixed explanation where the question was not a
/// task, and none where explanations are not shown.
pub open spec fn tailored(s: SuggestionView, output: OutputSettings) -> SuggestionView {
    SuggestionView {
        command: s.command,
        description: s.description,
        explanation: if s.not_a_task() {
            "Unable to find a suitable command for this request."@
        } else if !output.show_explanation {
            Seq::empty()
        } else {
            s.explanation
        },
        severity: if output.show_severity {
            s.severity
        } else {
            Severity::Unknown
        },
        severity_description: if output.show_severity {
            s.severity_description
        } else {
            Seq::empty()
        },
    }
}

/// The request for the explanation of `command`.
pub open spec fn explanation_request(exchange: ExchangeView, command: Seq<char>) -> RequestView {
    RequestView {
        backend: exchange.backend,
        url: exchange.url,
        api_key: None,
        model: exchange.model,
        system: None,
        prompt: explanation_prompt_text(exchange.shell, command),
        timeout_secs: Some(EXPLANATION_TIMEOUT_SECS),
    }
}

/// What follows the answer to the request for a suggestion.
///
/// A local backend is asked once more, for the explanation, unless the
/// question was not a task or explanations are not shown. The cloud backend
/// gives all in one answer.
pub open spec fn after_suggestion(exchange: ExchangeView, reply: ReplyView) -> StepView {
    match reply {
        ReplyView::Body(body) => match exchange.backend {
            Backend::Ollama => match ollama_content(body) {
                Err(e) => StepView::Done(Err(e)),
                Ok(content) => match parsed(content) {
                    Err(f) => StepView::Done(Err(ProviderErrorView::ParseRecovery(f))),
                    Ok(s) => if !s.not_a_task() && exchange.output.show_explanation {
                        StepView::Ask(
                            explanation_request(exchange, s.command),
                            PendingView::Explanation(tailored(s, exchange.output)),
                        )
                    } else {
                        StepView::Done(Ok(tailored(s, exchange.output)))
                    },
                },
            },
            Backend::Cerebras => match cerebras_content(body) {
                Err(e) => StepView::Done(Err(e)),
                Ok(content) => match parsed(content) {
                    Err(f) => StepView::Done(Err(ProviderErrorView::ParseRecovery(f))),
                    Ok(s) => StepView::Done(Ok(s)),
                },
            },
        },
        _ => StepView::Done(Err(reply_error(exchange, reply))),
    }
}

/// The string under `explanation` in a text that is a JSON object, or in
/// its brace span where the text as it stands is no JSON.
pub open spec fn explanation_text(content: Seq<char>) -> Option<Seq<char>> {
    match document(content) {
        Some(doc) => doc.text_member("explanation"@),
        None => match brace_span(content) {
            Some(span) => match document(span) {
                Some(doc) => doc.text_member("explanation"@),
                None => None,
            },
            None => None,
        },
    }
}

/// The explanation that the answer of a local backend holds, if any.
pub open spec fn explanation_in(body: Seq<char>) -> Option<Seq<char>> {
    match document(body) {
        Some(doc) => match doc.text_member("response"@) {
            Some(content) => explanation_text(content),
            None => None,
        },
        None => None,
    }
}

/// The suggestion after the request for its explanation: with the
/// explanation that came, and unchanged where none came.
pub open spec fn explained(s: SuggestionView, reply: ReplyView) -> SuggestionView {
    match reply {
        ReplyView::Body(body) => match explanation_in(body) {
            Some(explanation) => SuggestionView {
                command: s.command,
                description: s.description,
                explanation,
                severity: s.severity,
                severity_description: s.severity_description,
            },
            None => s,
        },
        _ => s,
    }
}

/// What follows a reply.
pub open spec fn advanced(pending: PendingView, reply: ReplyView) -> StepView {
    match pending {
        PendingView::Suggestion(exchange) => after_suggestion(exchange, reply),
        PendingView::Explanation(s) => StepView::Done(Ok(explained(s, reply))),
    }
}

/// A step that ends with a configuration error.
fn misconfigured(reason: &str) -> (r: Step)
    ensures
        r@ == StepView::Done(Err(configuration_error(reason@))),
{
    Step::Done(
        Err(
            ProviderError::Configuration(
                String::from_str(reason).concat(hint_at_setup("set it up.").as_str()),
            ),
        ),
    )
}

/// The first step with a local backend.
fn begin_ollama(question: &str, settings: &Settings, os: &str) -> (r: Step)
    ensures
        r@ == ollama_begun(question@, settings@, os@),
{
    let model = match &settings.ollama_model {
        Some(model) => model.clone(),
        None => {
            return misconfigured("Ollama model not configured.");
        },
    };
    let base_url = match &settings.ollama_base_url {
        Some(url) => url.clone(),
        None => String::from_str("http://localhost:11434"),
    };
    let shell = ShellKind::for_os(os);
    let url = base_url.clone().concat("/api/generate");
    Step::Ask(
        Request {
            backend: Backend::Ollama,
            url: url.clone(),
            api_key: None,
            model: model.clone(),
            system: None,
            prompt: ollama_prompt(shell, question, &settings.output_settings),
            timeout_secs: Some(SUGGESTION_TIMEOUT_SECS),
        },
        Pending::Suggestion(
            Exchange {
                backend: Backend::Ollama,
                shell,
                url,
                base_url,
                model,
                output: settings.output_settings,
            },
        ),
    )
}

/// The first step with the cloud backend.
fn begin_cerebras(question: &str, settings: &Settings, os: &str) -> (r: Step)
    ensures
        r@ == cerebras_begun(question@, settings@, os@),
{
    let key = match &settings.cerebras_api_key {
        Some(key) => key.clone(),
        None => {
            return misconfigured("Cerebras API key not configured.");
        },
    };
    let model = match &settings.ollama_model {
        Some(model) => model.clone(),
        None => {
            return misconfigured("Cerebras model not configured.");
        },
    };
    let shell = ShellKind::for_os(os);
    Step::Ask(
        Request {
            backend: Backend::Cerebras,
            url: String::from_str("https://api.cerebras.ai/v1/chat/completions"),
            api_key: Some(key),
            model: model.clone(),
            system: Some(
                String::from_str(
                    "You are a command suggestion tool. Suggest commands or 'no command returned'. Always JSON.",
                ),
            ),
            prompt: cerebras_prompt(shell, question, &settings.output_settings),
            timeout_secs: None,
        },
        Pending::Suggestion(
            Exchange {
                backend: Backend::Cerebras,
                shell,
                url: String::from_str("https://api.cerebras.ai/v1/chat/completions"),
                base_url: String::from_str("https://api.cerebras.ai/v1/chat/completions"),
                model,
                output: settings.output_settings,
            },
        ),
    )
}

/// The first step of a query: the request to send, or the error of
/// settings that do not say whom to ask, or with what.
pub fn begin(question: &str, settings: &Settings, os: &str) -> (r: Step)
    ensures
        r@ == begun(question@, settings@, os@),
        r matches Step::Done(Err(e)) ==> e is Configuration && names_setup(e->Configuration_0@),
        r is Ask ==> r->Ask_1 is Suggestion,
{
    proof {
        lemma_begin_errors_name_setup(question@, settings@, os@);
    }
    if same_text(settings.provider.as_str(), "ollama") {
        begin_ollama(question, settings, os)
    } else if same_text(settings.provider.as_str(), "cerebras") {
        begin_cerebras(question, settings, os)
    } else {
        misconfigured("Invalid provider in settings.")
    }
}

/// The error for a request that brought no body.
fn error_of_reply(exchange: &Exchange, reply: &Reply) -> (r: ProviderError)
    requires
        !(reply is Body),
    ensures
        r@ == reply_error(exchange@, reply@),
{
    match exchange.backend {
        Backend::Ollama => match reply {
            Reply::ConnectionFailed(reason) => ProviderError::Connection(
                String::from_str("❌ Ollama connection failed: ").concat(reason.as_str()).concat(
                    ". Make sure Ollama is running on ",
                ).concat(exchange.base_url.as_str()),
            ),
            Reply::Unreadable(reason) => ProviderError::Connection(
                String::from_str("Failed to read Ollama response: ").concat(reason.as_str()),
            ),
            _ => ProviderError::Timeout(
                String::from_str("❌ Ollama request timeout after 120 seconds on ").concat(
                    exchange.base_url.as_str(),
                ).concat(". Is the model too large or is Ollama still loading?"),
            ),
        },
        Backend::Cerebras => match reply {
            Reply::ConnectionFailed(reason) => ProviderError::Connection(
                String::from_str("Request failed: ").concat(reason.as_str()),
            ),
            Reply::Unreadable(reason) => ProviderError::Connection(
                String::from_str("Failed to read response: ").concat(reason.as_str()),
            ),
            _ => ProviderError::Timeout(String::from_str("Request timed out")),
        },
    }
}

/// The model's text in the answer of a local backend.
pub fn content_of_ollama(body: &str) -> (r: Result<String, ProviderError>)
    ensures
        match r {
            Ok(content) => ollama_content(body@) == Ok::<Seq<char>, ProviderErrorView>(content@),
            Err(e) => ollama_content(body@) == Err::<Seq<char>, ProviderErrorView>(e@),
        },
{
    let doc = match Json::decode(body) {
        Ok(doc) => doc,
        Err(message) => {
            return Err(
                ProviderError::ResponseFormat(
                    String::from_str("Failed to parse Ollama response: ").concat(message.as_str()),
                ),
            );
        },
    };
    match doc.text_member("response") {
        Some(content) => Ok(content.clone()),
        None => Err(
            ProviderError::ResponseFormat(String::from_str("Invalid response format from Ollama")),
        ),
    }
}

/// The string under `choices[0].message.content`.
fn content_of_chat(doc: &Json) -> (r: Option<String>)
    ensures
        match r {
            Some(content) => chat_content(doc@) == Some(content@),
            None => chat_content(doc@) is None,
        },
{
    let choices = match doc.member("choices") {
        Some(choices) => choices,
        None => {
            return None;
        },
    };
    let choice = match choices.element(0) {
        Some(choice) => choice,
        None => {
            return None;
        },
    };
    let message = match choice.member("message") {
        Some(message) => message,
        None => {
            return None;
        },
    };
    match message.text_member("content") {
        Some(content) => Some(content.clone()),
        None => None,
    }
}

/// The model's text in the answer of the cloud backend.
pub fn content_of_cerebras(body: &str) -> (r: Result<String, ProviderError>)
    ensures
        match r {
            Ok(content) => cerebras_content(body@) == Ok::<Seq<char>, ProviderErrorView>(content@),
            Err(e) => cerebras_content(body@) == Err::<Seq<char>, ProviderErrorView>(e@),
        },
{
    let doc = match Json::decode(body) {
        Ok(doc) => doc,
        Err(message) => {
            return Err(
                ProviderError::ResponseFormat(
                    String::from_str("Failed to parse response: ").concat(message.as_str()),
                ),
            );
        },
    };
    let limited = match doc.text_member("type") {
        Some(kind) => same_text(kind.as_str(), "too_many_requests_error"),
        None => false,
    };
    if limited {
        let message = match doc.text_member("message") {
            Some(message) => message.clone(),
            None => String::from_str("API rate limit exceeded"),
        };
        return Err(ProviderError::RateLimit(message));
    }
    match content_of_chat(&doc) {
        Some(content) => Ok(content),
        None => Err(
            ProviderError::ResponseFormat(String::from_str("Invalid response format from API")),
        ),
    }
}

/// A suggestion of a local backend as the settings want it.
fn tailor(s: CommandSuggestion, output: &OutputSettings) -> (r: CommandSuggestion)
    ensures
        r@ == tailored(s@, *output),
{
    let explanation = if s.is_not_a_task() {
        String::from_str("Unable to find a suitable command for this request.")
    } else if !output.show_explanation {
        String::new()
    } else {
        s.explanation
    };
    let severity = if output.show_severity {
        s.severity
    } else {
        Severity::Unknown
    };
    let severity_description = if output.show_severity {
        s.severity_description
    } else {
        String::new()
    };
    CommandSuggestion {
        command: s.command,
        description: s.description,
        explanation,
        severity,
        severity_description,
    }
}

/// The string under `explanation` in a text.
fn explanation_of_text(content: &str) -> (r: Option<String>)
    ensures
        match r {
            Some(e) => explanation_text(content@) == Some(e@),
            None => explanation_text(content@) is None,
        },
{
    match Json::decode(content) {
        Ok(doc) => match doc.text_member("explanation") {
            Some(e) => Some(e.clone()),
            None => None,
        },
        Err(_) => match span_in_braces(content) {
            Some(span) => match Json::decode(span.as_str()) {
                Ok(doc) => match doc.text_member("explanation") {
                    Some(e) => Some(e.clone()),
                    None => None,
                },
                Err(_) => None,
            },
            None => None,
        },
    }
}

/// The explanation that the answer of a local backend holds, if any.
pub fn explanation_of(body: &str) -> (r: Option<String>)
    ensures
        match r {
            Some(e) => explanation_in(body@) == Some(e@),
            None => explanation_in(body@) is None,
        },
{
    match Json::decode(body) {
        Ok(doc) => match doc.text_member("response") {
            Some(content) => explanation_of_text(content.as_str()),
            None => None,
        },
        Err(_) => None,
    }
}

/// What follows the answer to the request for a suggestion.
fn advance_suggestion(exchange: Exchange, reply: Reply) -> (r: Step)
    ensures
        r@ == after_suggestion(exchange@, reply@),
{
    let body = match &reply {
        Reply::Body(body) => body,
        _ => {
            return Step::Done(Err(error_of_reply(&exchange, &reply)));
        },
    };
    let content = match exchange.backend {
        Backend::Ollama => content_of_ollama(body.as_str()),
        Backend::Cerebras => content_of_cerebras(body.as_str()),
    };
    let content = match content {
        Ok(content) => content,
        Err(e) => {
            return Step::Done(Err(e));
        },
    };
    let s = match parse_suggestion(content.as_str()) {
        Ok(s) => s,
        Err(f) => {
            return Step::Done(Err(ProviderError::ParseRecovery(f)));
        },
    };
    match exchange.backend {
        Backend::Cerebras => Step::Done(Ok(s)),
        Backend::Ollama => if !s.is_not_a_task() && exchange.output.show_explanation {
            let request = Request {
                backend: exchange.backend,
                url: exchange.url.clone(),
                api_key: None,
                model: exchange.model.clone(),
                system: None,
                prompt: explanation_prompt(exchange.shell, s.command.as_str()),
                timeout_secs: Some(EXPLANATION_TIMEOUT_SECS),
            };
            Step::Ask(request, Pending::Explanation(tailor(s, &exchange.output)))
        } else {
            Step::Done(Ok(tailor(s, &exchange.output)))
        },
    }
}

/// The suggestion after the request for its explanation.
fn explain(s: CommandSuggestion, reply: &Reply) -> (r: CommandSuggestion)
    ensures
        r@ == explained(s@, reply@),
{
    match reply {
        Reply::Body(body) => match explanation_of(body.as_str()) {
            Some(explanation) => CommandSuggestion {
                command: s.command,
                description: s.description,
                explanation,
                severity: s.severity,
                severity_description: s.severity_description,
            },
            None => s,
        },
        _ => s,
    }
}

/// Takes what came of the request that was out and says what follows.
///
/// After the request for a suggestion this is the error of a request that
/// failed or of an answer that holds no suggestion, the suggestion, or one
/// more request, for the explanation. After the request for the
/// explanation it is always the suggestion: with the explanation where one
/// came, and as it was where the request failed or brought none.
pub fn advance(pending: Pending, reply: Reply) -> (r: Step)
    ensures
        r@ == advanced(pending@, reply@),
        pending is Explanation ==> r matches Step::Done(Ok(_)),
        r matches Step::Ask(_, next) ==> next is Explanation,
{
    match pending {
        Pending::Suggestion(exchange) => advance_suggestion(exchange, reply),
        Pending::Explanation(s) => Step::Done(Ok(explain(s, &reply))),
    }
}

/// Where a query cannot begin, the user is sent to setup: the first step
/// ends only with a configuration error, and its line names the setup
/// command.
pub proof fn lemma_begin_errors_name_setup(
    question: Seq<char>,
    settings: SettingsView,
    os: Seq<char>,
)
    ensures
        begun(question, settings, os) matches StepView::Done(result) ==> result matches Err(
            ProviderErrorView::Configuration(line),
        ) && names_setup(line),
{
    lemma_hint_names_setup("Ollama model not configured."@, "set it up."@);
    lemma_hint_names_setup("Cerebras API key not configured."@, "set it up."@);
    lemma_hint_names_setup("Cerebras model not configured."@, "set it up."@);
    lemma_hint_names_setup("Invalid provider in settings."@, "set it up."@);
}

/// A query is one request, or two: a reply is followed by another request
/// only after the request for the suggestion, that request is the one for
/// the explanation, and whatever comes of it, the query then ends with the
/// suggestion.
pub proof fn lemma_two_requests_at_most(pending: PendingView, first: ReplyView, second: ReplyView)
    ensures
        advanced(pending, first) matches StepView::Ask(_, next) ==> {
            &&& pending is Suggestion
            &&& next is Explanation
            &&& advanced(next, second) matches StepView::Done(Ok(_))
        },
{
}

} // verus!
