//! One interactive session: from the question to the command that was run,
//! explained or left alone.
//!
//! The session is a state machine. The caller does what its effects say
//! (asks the backend, prints, shows the menu, runs the command) and hands
//! back what happened as the next event. The backend is asked once, at the
//! start; the menu may come up any number of times.

use crate::api::{provider_message, ProviderError, ProviderErrorView};
use crate::settings::OutputSettings;
use crate::suggestion::{severity_label, CommandSuggestion, Severity, SuggestionView};
use crate::text::{blank, is_blank};
use crate::ui::MenuSelector;
use vstd::prelude::*;

verus! {

/// How a line is set off.
#[derive(Clone, Copy, Debug, PartialEq, Eq, Structural)]
pub enum Tone {
    Plain,
    /// The suggested command.
    Command,
    Dim,
    Success,
    Warning,
    Error,
}

/// One line of output.
#[derive(Debug)]
pub struct Line {
    pub text: String,
    pub tone: Tone,
    /// Whether the line goes to the error stream.
    pub to_error_stream: bool,
}

/// The mathematical form of a [`Line`].
pub ghost struct LineView {
    pub text: Seq<char>,
    pub tone: Tone,
    pub to_error_stream: bool,
}

impl View for Line {
    type V = LineView;

    open spec fn view(&self) -> LineView {
        LineView { text: self.text@, tone: self.tone, to_error_stream: self.to_error_stream }
    }
}

/// A line for the output stream.
pub open spec fn out_line(text: Seq<char>, tone: Tone) -> LineView {
    LineView { text, tone, to_error_stream: false }
}

/// A line for the error stream.
pub open spec fn error_line(text: Seq<char>, tone: Tone) -> LineView {
    LineView { text, tone, to_error_stream: true }
}

/// Where a session stands.
#[derive(Clone, Copy, Debug, PartialEq, Eq, Structural)]
pub enum SessionState {
    /// The backend has been asked; the progress indicator is up.
    Querying,
    /// The suggestion has been shown and the menu is up.
    AwaitingChoice,
    /// The command is running.
    Executing,
    /// The session is over.
    Done,
}

/// A session: where it stands, the suggestion once there is one, and what
/// is shown of it.
#[derive(Debug)]
pub struct Session {
    pub state: SessionState,
    pub suggestion: Option<CommandSuggestion>,
    pub output: OutputSettings,
}

/// The mathematical form of a [`Session`].
pub ghost struct SessionView {
    pub state: SessionState,
    pub suggestion: Option<SuggestionView>,
    pub output: OutputSettings,
}

impl View for Session {
    type V = SessionView;

    open spec fn view(&self) -> SessionView {
        SessionView {
            state: self.state,
            suggestion: match self.suggestion {
                Some(s) => Some(s@),
                None => None,
            },
            output: self.output,
        }
    }
}

/// What happened since the last effects.
#[derive(Debug)]
pub enum Event {
    /// The backend's answer.
    Answered(Result<CommandSuggestion, ProviderError>),
    /// The menu closed with this result.
    Chose(usize),
    /// The menu could not take over the terminal, or lost it. Holds the
    /// reason.
    MenuFailed(String),
    /// The command finished, or could not be started.
    Executed(Result<String, String>),
}

/// The mathematical form of an [`Event`].
pub ghost enum EventView {
    Answered(Result<SuggestionView, ProviderErrorView>),
    Chose(usize),
    MenuFailed(Seq<char>),
    Executed(Result<Seq<char>, Seq<char>>),
}

impl View for Event {
    type V = EventView;

    open spec fn view(&self) -> EventView {
        match self {
            Event::Answered(Ok(s)) => EventView::Answered(Ok(s@)),
            Event::Answered(Err(e)) => EventView::Answered(Err(e@)),
            Event::Chose(i) => EventView::Chose(*i),
            Event::MenuFailed(m) => EventView::MenuFailed(m@),
            Event::Executed(Ok(o)) => EventView::Executed(Ok(o@)),
            Event::Executed(Err(e)) => EventView::Executed(Err(e@)),
        }
    }
}

/// What the caller does next, in order.
#[derive(Debug)]
pub enum Effect {
    /// Put up the progress indicator and ask the backend this question.
    Ask(String),
    /// Take down the progress indicator and wait until its line is clear.
    ClearIndicator,
    /// Print a line.
    Say(Line),
    /// Show this menu and hand back its result.
    Choose(MenuSelector),
    /// Run this command and hand back what came of it.
    Run(String),
    /// End the session; `true` where it ends well.
    Leave(bool),
}

/// The mathematical form of an [`Effect`].
pub ghost enum EffectView {
    Ask(Seq<char>),
    ClearIndicator,
    Say(LineView),
    Choose(Seq<(Seq<char>, Seq<char>)>),
    Run(Seq<char>),
    Leave(bool),
}

impl View for Effect {
    type V = EffectView;

    open spec fn view(&self) -> EffectView {
        match self {
            Effect::Ask(q) => EffectView::Ask(q@),
            Effect::ClearIndicator => EffectView::ClearIndicator,
            Effect::Say(line) => EffectView::Say(line@),
            Effect::Choose(menu) => EffectView::Choose(menu@),
            Effect::Run(command) => EffectView::Run(command@),
            Effect::Leave(ok) => EffectView::Leave(*ok),
        }
    }
}

/// The views of the effects of `effects`.
pub open spec fn effects_view(effects: Seq<Effect>) -> Seq<EffectView> {
    Seq::new(effects.len(), |i: int| effects[i]@)
}

/// The tone of a severity label that stands alone.
pub open spec fn severity_tone(severity: Severity) -> Tone {
    match severity {
        Severity::Safe => Tone::Success,
        Severity::Warning => Tone::Warning,
        Severity::Dangerous => Tone::Error,
        Severity::Unknown => Tone::Plain,
    }
}

/// The line for severity and description: both with a dash between them,
/// either of them alone, or no line.
pub open spec fn severity_lines(s: SuggestionView, output: OutputSettings) -> Seq<EffectView> {
    if output.show_severity {
        if output.show_description {
            seq![
                EffectView::Say(
                    out_line(severity_label(s.severity) + " - "@ + s.description, Tone::Dim),
                ),
            ]
        } else {
            seq![
                EffectView::Say(out_line(severity_label(s.severity), severity_tone(s.severity))),
            ]
        }
    } else if output.show_description {
        seq![EffectView::Say(out_line(s.description, Tone::Dim))]
    } else {
        Seq::empty()
    }
}

/// The lines that show a suggestion: the command, severity and
/// description, each where it is shown, and an empty line.
pub open spec fn shown(s: SuggestionView, output: OutputSettings) -> Seq<EffectView> {
    (if output.show_command {
        seq![EffectView::Say(out_line(s.command, Tone::Command))]
    } else {
        Seq::empty()
    }) + severity_lines(s, output) + seq![EffectView::Say(out_line(Seq::empty(), Tone::Plain))]
}

/// The options of the menu: Run, Explain where explanations are shown, and
/// Stop.
pub open spec fn menu_options(output: OutputSettings) -> Seq<(Seq<char>, Seq<char>)> {
    if output.show_explanation {
        seq![("Run"@, ""@), ("Explain"@, ""@), ("Stop"@, ""@)]
    } else {
        seq![("Run"@, ""@), ("Stop"@, ""@)]
    }
}

/// The session at its start and its first effects.
pub open spec fn started(question: Seq<char>, output: OutputSettings) -> (
    SessionView,
    Seq<EffectView>,
) {
    (
        SessionView { state: SessionState::Querying, suggestion: None, output },
        seq![EffectView::Ask(question)],
    )
}

/// The session once it is over.
pub open spec fn over(session: SessionView) -> SessionView {
    SessionView { state: SessionState::Done, suggestion: session.suggestion, output: session.output }
}

/// What follows the backend's answer. The indicator comes down first,
/// whatever the answer.
///
/// An error is told and ends the session badly. A suggestion that says
/// "not a task" is told as a rejection, description and explanation, and
/// ends the session: no menu comes up. Any other suggestion is shown and
/// the menu comes up.
pub open spec fn answered(
    session: SessionView,
    answer: Result<SuggestionView, ProviderErrorView>,
) -> (SessionView, Seq<EffectView>) {
    match answer {
        Err(e) => (
            over(session),
            seq![
                EffectView::ClearIndicator,
                EffectView::Say(error_line("\n❌ Error: "@ + provider_message(e), Tone::Error)),
                EffectView::Leave(false),
            ],
        ),
        Ok(s) => if s.not_a_task() {
            (
                over(session),
                seq![
                    EffectView::ClearIndicator,
                    EffectView::Say(error_line(s.description, Tone::Error)),
                    EffectView::Say(error_line(s.explanation, Tone::Warning)),
                    EffectView::Leave(true),
                ],
            )
        } else {
            (
                SessionView {
                    state: SessionState::AwaitingChoice,
                    suggestion: Some(s),
                    output: session.output,
                },
                seq![EffectView::ClearIndicator] + shown(s, session.output) + seq![
                    EffectView::Choose(menu_options(session.output)),
                ],
            )
        },
    }
}

/// What follows the result of the menu.
///
/// The first option runs the command. The second explains, where
/// explanations are shown: the explanation is printed and the menu comes
/// up again, with no word to the backend. Every other result, Stop and a
/// cancelled menu among them, ends the session with a farewell.
pub open spec fn chosen(session: SessionView, s: SuggestionView, selected: usize) -> (
    SessionView,
    Seq<EffectView>,
) {
    if selected == 0 {
        (
            SessionView {
                state: SessionState::Executing,
                suggestion: session.suggestion,
                output: session.output,
            },
            seq![EffectView::Run(s.command)],
        )
    } else if selected == 1 && session.output.show_explanation {
        (
            session,
            seq![
                EffectView::Say(out_line("\n"@ + s.explanation, Tone::Plain)),
                EffectView::Say(out_line(Seq::empty(), Tone::Plain)),
                EffectView::Choose(menu_options(session.output)),
            ],
        )
    } else {
        (
            over(session),
            seq![EffectView::Say(out_line("Goodbye!"@, Tone::Warning)), EffectView::Leave(true)],
        )
    }
}

/// What follows the end of the command: its output, a word of success
/// where it wrote nothing but white space, or its error. The session ends.
pub open spec fn executed(session: SessionView, outcome: Result<Seq<char>, Seq<char>>) -> (
    SessionView,
    Seq<EffectView>,
) {
    (
        over(session),
        seq![
            EffectView::Say(
                match outcome {
                    Ok(output) => if blank(output) {
                        out_line("✅ Done!"@, Tone::Success)
                    } else {
                        out_line("\n"@ + output, Tone::Plain)
                    },
                    Err(error) => error_line("❌ Error: "@ + error, Tone::Error),
                },
            ),
            EffectView::Leave(true),
        ],
    )
}

/// The session after an event, and the effects of the event.
///
/// Each state takes one kind of event: the answer while querying, the
/// menu's result or failure while awaiting the choice, the command's end
/// while executing. Any other event changes nothing and has no effect; a
/// session that is over takes no event at all.
pub open spec fn stepped(session: SessionView, event: EventView) -> (SessionView, Seq<EffectView>) {
    match (session.state, event) {
        (SessionState::Querying, EventView::Answered(answer)) => answered(session, answer),
        (SessionState::AwaitingChoice, EventView::Chose(selected)) => match session.suggestion {
            Some(s) => chosen(session, s, selected),
            None => (session, Seq::empty()),
        },
        (SessionState::AwaitingChoice, EventView::MenuFailed(reason)) => (
            over(session),
            seq![
                EffectView::Say(error_line("❌ Error: "@ + reason, Tone::Error)),
                EffectView::Leave(false),
            ],
        ),
        (SessionState::Executing, EventView::Executed(outcome)) => executed(session, outcome),
        _ => (session, Seq::empty()),
    }
}

/// Adds an effect to the end of `effects`.
fn emit(effects: &mut Vec<Effect>, effect: Effect)
    ensures
        effects_view(final(effects)@) == effects_view(old(effects)@).push(effect@),
{
    effects.push(effect);
    assert(effects_view(effects@) =~= effects_view(old(effects)@).push(effect@));
}

/// Adds a line for the output stream to the end of `effects`.
fn say(effects: &mut Vec<Effect>, text: String, tone: Tone)
    ensures
        effects_view(final(effects)@) == effects_view(old(effects)@).push(
            EffectView::Say(out_line(text@, tone)),
        ),
{
    emit(effects, Effect::Say(Line { text, tone, to_error_stream: false }));
}

/// Adds a line for the error stream to the end of `effects`.
fn complain(effects: &mut Vec<Effect>, text: String, tone: Tone)
    ensures
        effects_view(final(effects)@) == effects_view(old(effects)@).push(
            EffectView::Say(error_line(text@, tone)),
        ),
{
    emit(effects, Effect::Say(Line { text, tone, to_error_stream: true }));
}

/// The tone of a severity label that stands alone.
fn tone_of(severity: Severity) -> (r: Tone)
    ensures
        r == severity_tone(severity),
{
    match severity {
        Severity::Safe => Tone::Success,
        Severity::Warning => Tone::Warning,
        Severity::Dangerous => Tone::Error,
        Severity::Unknown => Tone::Plain,
    }
}

/// The menu of a session.
pub fn session_menu(output: &OutputSettings) -> (r: MenuSelector)
    ensures
        r@ == menu_options(*output),
{
    let menu = MenuSelector::new().add_option("Run", "");
    let menu = if output.show_explanation {
        menu.add_option("Explain", "")
    } else {
        menu
    };
    let menu = menu.add_option("Stop", "");
    assert(menu@ =~= menu_options(*output));
    menu
}

/// Adds the lines that show a suggestion to the end of `effects`.
fn show_suggestion(effects: &mut Vec<Effect>, s: &CommandSuggestion, output: &OutputSettings)
    ensures
        effects_view(final(effects)@) == effects_view(old(effects)@) + shown(s@, *output),
{
    let ghost before = effects_view(effects@);
    if output.show_command {
        say(effects, s.command.clone(), Tone::Command);
    }
    if output.show_severity {
        if output.show_description {
            let text = String::from_str(s.severity.label()).concat(" - ").concat(
                s.description.as_str(),
            );
            say(effects, text, Tone::Dim);
        } else {
            say(effects, String::from_str(s.severity.label()), tone_of(s.severity));
        }
    } else if output.show_description {
        say(effects, s.description.clone(), Tone::Dim);
    }
    say(effects, String::new(), Tone::Plain);
    assert(effects_view(effects@) =~= before + shown(s@, *output));
}

impl Session {
    /// A session for `question`, with what is shown of a suggestion. The
    /// one effect is to ask the backend.
    pub fn start(question: &str, output: OutputSettings) -> (r: (Session, Vec<Effect>))
        ensures
            (r.0@, effects_view(r.1@)) == started(question@, output),
    {
        let mut effects: Vec<Effect> = Vec::new();
        assert(effects_view(effects@) =~= Seq::empty());
        emit(&mut effects, Effect::Ask(question.to_owned()));
        let session = Session { state: SessionState::Querying, suggestion: None, output };
        assert(effects_view(effects@) =~= started(question@, output).1);
        (session, effects)
    }

    /// Whether the session is over.
    pub fn is_over(&self) -> (r: bool)
        ensures
            r == (self@.state == SessionState::Done),
    {
        self.state == SessionState::Done
    }

    /// What follows the backend's answer.
    fn on_answer(self, answer: Result<CommandSuggestion, ProviderError>) -> (r: (
        Session,
        Vec<Effect>,
    ))
        ensures
            (r.0@, effects_view(r.1@)) == answered(
                self@,
                match answer {
                    Ok(s) => Ok(s@),
                    Err(e) => Err(e@),
                },
            ),
    {
        let mut effects: Vec<Effect> = Vec::new();
        assert(effects_view(effects@) =~= Seq::empty());
        emit(&mut effects, Effect::ClearIndicator);
        match answer {
            Err(e) => {
                let text = String::from_str("\n❌ Error: ").concat(e.message().as_str());
                complain(&mut effects, text, Tone::Error);
                emit(&mut effects, Effect::Leave(false));
                let session = Session {
                    state: SessionState::Done,
                    suggestion: self.suggestion,
                    output: self.output,
                };
                assert(effects_view(effects@) =~= answered(self@, Err(e@)).1);
                (session, effects)
            },
            Ok(s) => {
                if s.is_not_a_task() {
                    complain(&mut effects, s.description.clone(), Tone::Error);
                    complain(&mut effects, s.explanation.clone(), Tone::Warning);
                    emit(&mut effects, Effect::Leave(true));
                    let session = Session {
                        state: SessionState::Done,
                        suggestion: self.suggestion,
                        output: self.output,
                    };
                    assert(effects_view(effects@) =~= answered(self@, Ok(s@)).1);
                    (session, effects)
                } else {
                    show_suggestion(&mut effects, &s, &self.output);
                    emit(&mut effects, Effect::Choose(session_menu(&self.output)));
                    assert(effects_view(effects@) =~= answered(self@, Ok(s@)).1);
                    let session = Session {
                        state: SessionState::AwaitingChoice,
                        suggestion: Some(s),
                        output: self.output,
                    };
                    (session, effects)
                }
            },
        }
    }

    /// What follows the result of the menu.
    fn on_choice(self, selected: usize) -> (r: (Session, Vec<Effect>))
        requires
            self.suggestion is Some,
        ensures
            (r.0@, effects_view(r.1@)) == chosen(self@, self@.suggestion->0, selected),
    {
        let mut effects: Vec<Effect> = Vec::new();
        assert(effects_view(effects@) =~= Seq::empty());
        let ghost before = self@;
        let s = match &self.suggestion {
            Some(s) => s,
            None => {
                return (self, effects);
            },
        };
        if selected == 0 {
            emit(&mut effects, Effect::Run(s.command.clone()));
            assert(effects_view(effects@) =~= chosen(before, s@, selected).1);
            let session = Session {
                state: SessionState::Executing,
                suggestion: self.suggestion,
                output: self.output,
            };
            (session, effects)
        } else if selected == 1 && self.output.show_explanation {
            say(
                &mut effects,
                String::from_str("\n").concat(s.explanation.as_str()),
                Tone::Plain,
            );
            say(&mut effects, String::new(), Tone::Plain);
            emit(&mut effects, Effect::Choose(session_menu(&self.output)));
            assert(effects_view(effects@) =~= chosen(before, s@, selected).1);
            (self, effects)
        } else {
            say(&mut effects, String::from_str("Goodbye!"), Tone::Warning);
            emit(&mut effects, Effect::Leave(true));
            assert(effects_view(effects@) =~= chosen(before, s@, selected).1);
            let session = Session {
                state: SessionState::Done,
                suggestion: self.suggestion,
                output: self.output,
            };
            (session, effects)
        }
    }

    /// What follows the end of the command.
    fn on_executed(self, outcome: Result<String, String>) -> (r: (Session, Vec<Effect>))
        ensures
            (r.0@, effects_view(r.1@)) == executed(
                self@,
                match outcome {
                    Ok(o) => Ok(o@),
                    Err(e) => Err(e@),
                },
            ),
    {
        let mut effects: Vec<Effect> = Vec::new();
        assert(effects_view(effects@) =~= Seq::empty());
        match &outcome {
            Ok(output) => {
                if is_blank(output.as_str()) {
                    say(&mut effects, String::from_str("✅ Done!"), Tone::Success);
                } else {
                    say(
                        &mut effects,
                        String::from_str("\n").concat(output.as_str()),
                        Tone::Plain,
                    );
                }
            },
            Err(error) => {
                complain(
                    &mut effects,
                    String::from_str("❌ Error: ").concat(error.as_str()),
                    Tone::Error,
                );
            },
        }
        emit(&mut effects, Effect::Leave(true));
        let ghost expected = executed(
            self@,
            match outcome {
                Ok(o) => Ok(o@),
                Err(e) => Err(e@),
            },
        ).1;
        assert(effects_view(effects@) =~= expected);
        let session = Session {
            state: SessionState::Done,
            suggestion: self.suggestion,
            output: self.output,
        };
        (session, effects)
    }

    /// Takes an event and gives the session after it with the effects that
    /// the caller carries out, in order.
    ///
    /// The backend is never asked again: no effect of an event is
    /// [`Effect::Ask`]. The effects of the backend's answer begin with
    /// taking down the indicator.
    pub fn advance(self, event: Event) -> (r: (Session, Vec<Effect>))
        ensures
            (r.0@, effects_view(r.1@)) == stepped(self@, event@),
            forall|i: int| 0 <= i < r.1@.len() ==> !(#[trigger] r.1@[i] is Ask),
            self.state is Querying && event is Answered ==> r.1@.len() > 0 && r.1@[0]
                is ClearIndicator,
    {
        let ghost before = self@;
        let ghost happened = event@;
        let r = match event {
            Event::Answered(answer) => {
                if self.state == SessionState::Querying {
                    self.on_answer(answer)
                } else {
                    let effects: Vec<Effect> = Vec::new();
                    assert(effects_view(effects@) =~= Seq::empty());
                    (self, effects)
                }
            },
            Event::Chose(selected) => {
                if self.state == SessionState::AwaitingChoice && self.suggestion.is_some() {
                    self.on_choice(selected)
                } else {
                    let effects: Vec<Effect> = Vec::new();
                    assert(effects_view(effects@) =~= Seq::empty());
                    (self, effects)
                }
            },
            Event::MenuFailed(reason) => {
                let mut effects: Vec<Effect> = Vec::new();
                assert(effects_view(effects@) =~= Seq::empty());
                if self.state == SessionState::AwaitingChoice {
                    complain(
                        &mut effects,
                        String::from_str("❌ Error: ").concat(reason.as_str()),
                        Tone::Error,
                    );
                    emit(&mut effects, Effect::Leave(false));
                    assert(effects_view(effects@) =~= stepped(before, happened).1);
                    let session = Session {
                        state: SessionState::Done,
                        suggestion: self.suggestion,
                        output: self.output,
                    };
                    (session, effects)
                } else {
                    (self, effects)
                }
            },
            Event::Executed(outcome) => {
                if self.state == SessionState::Executing {
                    self.on_executed(outcome)
                } else {
                    let effects: Vec<Effect> = Vec::new();
                    assert(effects_view(effects@) =~= Seq::empty());
                    (self, effects)
                }
            },
        };
        proof {
            lemma_never_asks(before, happened);
            assert forall|i: int| 0 <= i < r.1@.len() implies !(#[trigger] r.1@[i] is Ask) by {
                assert(effects_view(r.1@)[i] == r.1@[i]@);
            }
            if before.state is Querying && happened is Answered {
                assert(effects_view(r.1@)[0] == r.1@[0]@);
            }
        }
        r
    }
}

/// No event makes the session ask the backend.
pub proof fn lemma_never_asks(session: SessionView, event: EventView)
    ensures
        forall|i: int|
            0 <= i < stepped(session, event).1.len() ==> !(#[trigger] stepped(session, event).1[i]
                is Ask),
{
}

/// The effects of the events of `events`, one after the other.
pub open spec fn effects_after(session: SessionView, events: Seq<EventView>) -> Seq<EffectView>
    decreases events.len(),
{
    if events.len() == 0 {
        Seq::empty()
    } else {
        stepped(session, events[0]).1 + effects_after(
            stepped(session, events[0]).0,
            events.drop_first(),
        )
    }
}

/// A session that is over stays silent: whatever events come, it has no
/// effect.
pub proof fn lemma_over_is_silent(session: SessionView, events: Seq<EventView>)
    requires
        session.state is Done,
    ensures
        effects_after(session, events) == Seq::<EffectView>::empty(),
    decreases events.len(),
{
    if events.len() > 0 {
        lemma_over_is_silent(session, events.drop_first());
    }
}

/// A rejection ends the session: when the backend answers that the
/// question was not a task, then whatever events follow, no command is run
/// and no menu comes up, so nothing is explained either.
pub proof fn lemma_rejection_runs_nothing(
    question: Seq<char>,
    output: OutputSettings,
    s: SuggestionView,
    later: Seq<EventView>,
)
    requires
        s.not_a_task(),
    ensures
        forall|i: int|
            0 <= i < effects_after(
                started(question, output).0,
                seq![EventView::Answered(Ok(s))] + later,
            ).len() ==> {
                let effect = #[trigger] effects_after(
                    started(question, output).0,
                    seq![EventView::Answered(Ok(s))] + later,
                )[i];
                !(effect is Run) && !(effect is Choose)
            },
{
    let start = started(question, output).0;
    let events = seq![EventView::Answered(Ok(s))] + later;
    assert(events[0] == EventView::Answered(Ok::<SuggestionView, ProviderErrorView>(s)));
    assert(events.drop_first() =~= later);
    lemma_over_is_silent(stepped(start, events[0]).0, later);
    assert(effects_after(start, events) =~= stepped(start, events[0]).1);
}

} // verus!
