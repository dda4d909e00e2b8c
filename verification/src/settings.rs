//! The settings that the user keeps: which backend to ask, with which
//! credentials and model, and which fields of a suggestion to show.
//!
//! Reading and writing the settings file is left to the caller. This module
//! decodes the file's text, checks it, and decides what the answers given
//! during setup mean.

use crate::json::{document, json_fault, Json, JsonValue};
use crate::text::{chars_of, decimal, parse_decimal, same_text, trim, trimmed};
use vstd::prelude::*;

verus! {

/// Which fields of a suggestion are shown.
#[derive(Clone, Copy, Debug, PartialEq, Eq, Structural)]
pub struct OutputSettings {
    pub show_command: bool,
    pub show_description: bool,
    pub show_explanation: bool,
    pub show_severity: bool,
}

/// Every field shown.
pub open spec fn show_all() -> OutputSettings {
    OutputSettings {
        show_command: true,
        show_description: true,
        show_explanation: true,
        show_severity: true,
    }
}

impl Default for OutputSettings {
    fn default() -> (r: OutputSettings)
        ensures
            r == show_all(),
    {
        OutputSettings {
            show_command: true,
            show_description: true,
            show_explanation: true,
            show_severity: true,
        }
    }
}

/// The settings record.
///
/// `provider` is `"ollama"` or `"cerebras"`. `ollama_model` names the model
/// for either of them.
#[derive(Debug)]
pub struct Settings {
    pub provider: String,
    pub cerebras_api_key: Option<String>,
    pub ollama_model: Option<String>,
    pub ollama_base_url: Option<String>,
    pub output_settings: OutputSettings,
}

/// The mathematical form of an optional string.
pub open spec fn text_view(s: Option<String>) -> Option<Seq<char>> {
    match s {
        Some(s) => Some(s@),
        None => None,
    }
}

/// The characters of a text that may be missing.
pub open spec fn text_of(s: Option<&str>) -> Option<Seq<char>> {
    match s {
        Some(s) => Some(s@),
        None => None,
    }
}

/// The mathematical form of [`Settings`].
pub ghost struct SettingsView {
    pub provider: Seq<char>,
    pub cerebras_api_key: Option<Seq<char>>,
    pub ollama_model: Option<Seq<char>>,
    pub ollama_base_url: Option<Seq<char>>,
    pub output_settings: OutputSettings,
}

impl View for Settings {
    type V = SettingsView;

    open spec fn view(&self) -> SettingsView {
        SettingsView {
            provider: self.provider@,
            cerebras_api_key: text_view(self.cerebras_api_key),
            ollama_model: text_view(self.ollama_model),
            ollama_base_url: text_view(self.ollama_base_url),
            output_settings: self.output_settings,
        }
    }
}

/// A copy of an optional string.
fn copy_text(s: &Option<String>) -> (r: Option<String>)
    ensures
        text_view(r) == text_view(*s),
{
    match s {
        Some(s) => Some(s.clone()),
        None => None,
    }
}

impl Clone for Settings {
    fn clone(&self) -> (r: Settings)
        ensures
            r@ == self@,
    {
        Settings {
            provider: self.provider.clone(),
            cerebras_api_key: copy_text(&self.cerebras_api_key),
            ollama_model: copy_text(&self.ollama_model),
            ollama_base_url: copy_text(&self.ollama_base_url),
            output_settings: self.output_settings,
        }
    }
}

/// Why no settings could be had.
#[derive(Debug)]
pub enum SettingsError {
    /// There is no settings file.
    NotFound,
    /// The settings file could not be read. Holds the reason.
    Unreadable(String),
    /// The settings file is not JSON. Holds the decoder's message.
    Malformed(String),
    /// The file is JSON, but not a settings record.
    Shape,
    /// The provider is Cerebras and no API key is set.
    MissingApiKey,
    /// The provider is Ollama and no model is set.
    MissingModel,
    /// The provider is neither of the two.
    InvalidProvider,
}

/// The mathematical form of a [`SettingsError`].
pub ghost enum SettingsErrorView {
    NotFound,
    Unreadable(Seq<char>),
    Malformed(Seq<char>),
    Shape,
    MissingApiKey,
    MissingModel,
    InvalidProvider,
}

impl View for SettingsError {
    type V = SettingsErrorView;

    open spec fn view(&self) -> SettingsErrorView {
        match self {
            SettingsError::NotFound => SettingsErrorView::NotFound,
            SettingsError::Unreadable(m) => SettingsErrorView::Unreadable(m@),
            SettingsError::Malformed(m) => SettingsErrorView::Malformed(m@),
            SettingsError::Shape => SettingsErrorView::Shape,
            SettingsError::MissingApiKey => SettingsErrorView::MissingApiKey,
            SettingsError::MissingModel => SettingsErrorView::MissingModel,
            SettingsError::InvalidProvider => SettingsErrorView::InvalidProvider,
        }
    }
}

/// The command that sets the tool up.
pub open spec fn setup_command() -> Seq<char> {
    "tella --settings"@
}

/// The words that send the user to setup, to go after the reason of an
/// error.
pub open spec fn setup_hint(purpose: Seq<char>) -> Seq<char> {
    " Run '"@ + setup_command() + "' to "@ + purpose
}

/// Whether a line names the setup command.
pub open spec fn names_setup(line: Seq<char>) -> bool {
    exists|before: Seq<char>, after: Seq<char>| line == before + setup_command() + after
}

/// A reason followed by the words that send the user to setup names the
/// setup command.
pub proof fn lemma_hint_names_setup(reason: Seq<char>, purpose: Seq<char>)
    ensures
        names_setup(reason + setup_hint(purpose)),
{
    let before = reason + " Run '"@;
    let after = "' to "@ + purpose;
    assert(reason + setup_hint(purpose) =~= before + setup_command() + after);
}

/// Why settings could not be had, without the words on setup.
pub open spec fn settings_reason(error: SettingsErrorView) -> Seq<char> {
    match error {
        SettingsErrorView::NotFound => "Settings file not found."@,
        SettingsErrorView::Unreadable(m) => "Failed to read settings file: "@ + m + "."@,
        SettingsErrorView::Malformed(m) => "Failed to parse settings file: "@ + m + "."@,
        SettingsErrorView::Shape => "Failed to parse settings file: not a settings record."@,
        SettingsErrorView::MissingApiKey => "CEREBRAS_API_KEY is not configured."@,
        SettingsErrorView::MissingModel => "Ollama model is not configured."@,
        SettingsErrorView::InvalidProvider => "Invalid provider in settings. Must be 'ollama' or 'cerebras'."@,
    }
}

/// What setup is for after a settings error.
pub open spec fn settings_purpose(error: SettingsErrorView) -> Seq<char> {
    match error {
        SettingsErrorView::NotFound => "configure."@,
        SettingsErrorView::Unreadable(_) => "configure."@,
        SettingsErrorView::Malformed(_) => "configure."@,
        SettingsErrorView::Shape => "configure."@,
        _ => "set it up."@,
    }
}

/// The line that tells the user of a settings error: the reason, and the
/// setup command to run.
pub open spec fn settings_message(error: SettingsErrorView) -> Seq<char> {
    settings_reason(error) + setup_hint(settings_purpose(error))
}

/// Every settings error sends the user to setup: its line names the setup
/// command.
pub proof fn lemma_settings_errors_name_setup(error: SettingsErrorView)
    ensures
        names_setup(settings_message(error)),
{
    lemma_hint_names_setup(settings_reason(error), settings_purpose(error));
}

/// The words that send the user to setup.
pub fn hint_at_setup(purpose: &str) -> (r: String)
    ensures
        r@ == setup_hint(purpose@),
{
    String::from_str(" Run '").concat("tella --settings").concat("' to ").concat(purpose)
}

impl SettingsError {
    /// Why settings could not be had, without the words on setup.
    fn reason(&self) -> (r: String)
        ensures
            r@ == settings_reason(self@),
    {
        match self {
            SettingsError::NotFound => String::from_str("Settings file not found."),
            SettingsError::Unreadable(m) => String::from_str("Failed to read settings file: ").concat(
                m.as_str(),
            ).concat("."),
            SettingsError::Malformed(m) => String::from_str("Failed to parse settings file: ").concat(
                m.as_str(),
            ).concat("."),
            SettingsError::Shape => String::from_str(
                "Failed to parse settings file: not a settings record.",
            ),
            SettingsError::MissingApiKey => String::from_str("CEREBRAS_API_KEY is not configured."),
            SettingsError::MissingModel => String::from_str("Ollama model is not configured."),
            SettingsError::InvalidProvider => String::from_str(
                "Invalid provider in settings. Must be 'ollama' or 'cerebras'.",
            ),
        }
    }

    /// The line that tells the user of the error. It names the setup
    /// command, whatever the error.
    pub fn message(&self) -> (r: String)
        ensures
            r@ == settings_message(self@),
            names_setup(r@),
    {
        let purpose = match self {
            SettingsError::NotFound => "configure.",
            SettingsError::Unreadable(_) => "configure.",
            SettingsError::Malformed(_) => "configure.",
            SettingsError::Shape => "configure.",
            _ => "set it up.",
        };
        proof {
            lemma_settings_errors_name_setup(self@);
        }
        self.reason().concat(hint_at_setup(purpose).as_str())
    }
}

/// A string member that may be left out or be `null`: `Some(None)` for
/// those two, `None` where the member holds anything but a string.
pub open spec fn optional_string(doc: JsonValue, key: Seq<char>) -> Option<Option<Seq<char>>> {
    match doc.member(key) {
        None => Some(None),
        Some(JsonValue::Null) => Some(None),
        Some(JsonValue::Text(s)) => Some(Some(s)),
        Some(_) => None,
    }
}

/// The output settings that a JSON value describes: an object with all
/// four flags.
pub open spec fn output_settings_of(value: JsonValue) -> Option<OutputSettings> {
    if value.flag_member("show_command"@) is Some && value.flag_member("show_description"@) is Some
        && value.flag_member("show_explanation"@) is Some && value.flag_member("show_severity"@)
        is Some {
        Some(
            OutputSettings {
                show_command: value.flag_member("show_command"@)->0,
                show_description: value.flag_member("show_description"@)->0,
                show_explanation: value.flag_member("show_explanation"@)->0,
                show_severity: value.flag_member("show_severity"@)->0,
            },
        )
    } else {
        None
    }
}

/// The output settings of a settings document: those that it holds, and
/// every field shown where it holds none.
pub open spec fn output_settings_in(doc: JsonValue) -> Option<OutputSettings> {
    match doc.member("output_settings"@) {
        Some(value) => output_settings_of(value),
        None => Some(show_all()),
    }
}

/// The settings that a JSON document describes.
///
/// `provider` is a string. The key, the model and the base URL are strings,
/// `null` or left out. `output_settings` holds all four flags or is left
/// out.
pub open spec fn settings_of(doc: JsonValue) -> Option<SettingsView> {
    if doc.text_member("provider"@) is Some && optional_string(doc, "cerebras_api_key"@) is Some
        && optional_string(doc, "ollama_model"@) is Some && optional_string(
        doc,
        "ollama_base_url"@,
    ) is Some && output_settings_in(doc) is Some {
        Some(
            SettingsView {
                provider: doc.text_member("provider"@)->0,
                cerebras_api_key: optional_string(doc, "cerebras_api_key"@)->0,
                ollama_model: optional_string(doc, "ollama_model"@)->0,
                ollama_base_url: optional_string(doc, "ollama_base_url"@)->0,
                output_settings: output_settings_in(doc)->0,
            },
        )
    } else {
        None
    }
}

/// Whether an optional string is there and not empty.
pub open spec fn is_set(s: Option<Seq<char>>) -> bool {
    s is Some && s->0.len() > 0
}

/// What is wrong with settings, if anything: Cerebras needs a key, Ollama
/// needs a model, and there is no third provider.
pub open spec fn fault_of(settings: SettingsView) -> Option<SettingsErrorView> {
    if settings.provider == "cerebras"@ {
        if is_set(settings.cerebras_api_key) {
            None
        } else {
            Some(SettingsErrorView::MissingApiKey)
        }
    } else if settings.provider == "ollama"@ {
        if is_set(settings.ollama_model) {
            None
        } else {
            Some(SettingsErrorView::MissingModel)
        }
    } else {
        Some(SettingsErrorView::InvalidProvider)
    }
}

/// The result of loading settings from the text of a settings file.
pub open spec fn loaded_from(content: Seq<char>) -> Result<SettingsView, SettingsErrorView> {
    match document(content) {
        None => Err(SettingsErrorView::Malformed(json_fault(content))),
        Some(doc) => match settings_of(doc) {
            None => Err(SettingsErrorView::Shape),
            Some(settings) => match fault_of(settings) {
                Some(error) => Err(error),
                None => Ok(settings),
            },
        },
    }
}

/// The result of loading settings: those that the text of the settings
/// file describes, where they hold what their provider needs, and an error
/// where there is no file, where its text is no settings record, and where
/// the settings lack what their provider needs.
pub open spec fn loaded(content: Option<Seq<char>>) -> Result<SettingsView, SettingsErrorView> {
    match content {
        Some(text) => loaded_from(text),
        None => Err(SettingsErrorView::NotFound),
    }
}

/// Whether an optional string is there and not empty.
fn has_text(s: &Option<String>) -> (r: bool)
    ensures
        r == is_set(text_view(*s)),
{
    match s {
        Some(s) => !s.as_str().is_empty(),
        None => false,
    }
}

/// A string member that may be left out or be `null`.
fn read_optional_string(doc: &Json, key: &str) -> (r: Option<Option<String>>)
    ensures
        match r {
            Some(s) => optional_string(doc@, key@) == Some(text_view(s)),
            None => optional_string(doc@, key@) is None,
        },
{
    match doc.member(key) {
        None => Some(None),
        Some(value) => match value {
            Json::Null => Some(None),
            Json::Text(s) => Some(Some(s.clone())),
            _ => None,
        },
    }
}

impl OutputSettings {
    /// The output settings that a JSON value describes.
    pub fn from_json(value: &Json) -> (r: Option<OutputSettings>)
        ensures
            r == output_settings_of(value@),
    {
        let show_command = value.flag_member("show_command");
        let show_description = value.flag_member("show_description");
        let show_explanation = value.flag_member("show_explanation");
        let show_severity = value.flag_member("show_severity");
        match (show_command, show_description, show_explanation, show_severity) {
            (Some(show_command), Some(show_description), Some(show_explanation), Some(show_severity)) => Some(
                OutputSettings { show_command, show_description, show_explanation, show_severity },
            ),
            _ => None,
        }
    }
}

impl Settings {
    /// The settings that a JSON document describes.
    pub fn from_json(doc: &Json) -> (r: Option<Settings>)
        ensures
            match r {
                Some(s) => settings_of(doc@) == Some(s@),
                None => settings_of(doc@) is None,
            },
    {
        let provider = match doc.text_member("provider") {
            Some(p) => p.clone(),
            None => {
                return None;
            },
        };
        let cerebras_api_key = read_optional_string(doc, "cerebras_api_key");
        let ollama_model = read_optional_string(doc, "ollama_model");
        let ollama_base_url = read_optional_string(doc, "ollama_base_url");
        let output_settings = match doc.member("output_settings") {
            Some(value) => OutputSettings::from_json(value),
            None => Some(OutputSettings::default()),
        };
        match (cerebras_api_key, ollama_model, ollama_base_url, output_settings) {
            (Some(cerebras_api_key), Some(ollama_model), Some(ollama_base_url), Some(output_settings)) => Some(
                Settings { provider, cerebras_api_key, ollama_model, ollama_base_url, output_settings },
            ),
            _ => None,
        }
    }

    /// Checks that the settings name a provider and hold what it needs.
    pub fn validate(&self) -> (r: Result<(), SettingsError>)
        ensures
            match r {
                Ok(_) => fault_of(self@) is None,
                Err(e) => fault_of(self@) == Some(e@),
            },
    {
        if same_text(self.provider.as_str(), "cerebras") {
            if has_text(&self.cerebras_api_key) {
                Ok(())
            } else {
                Err(SettingsError::MissingApiKey)
            }
        } else if same_text(self.provider.as_str(), "ollama") {
            if has_text(&self.ollama_model) {
                Ok(())
            } else {
                Err(SettingsError::MissingModel)
            }
        } else {
            Err(SettingsError::InvalidProvider)
        }
    }

    /// Loads settings from the text of the settings file, `None` where
    /// there is no such file: decodes the text, reads the record and checks
    /// it. Settings that come back hold what their provider needs; every
    /// error sends the user to setup.
    pub fn load(content: Option<&str>) -> (r: Result<Settings, SettingsError>)
        ensures
            match r {
                Ok(s) => loaded(text_of(content)) == Ok::<SettingsView, SettingsErrorView>(s@)
                    && fault_of(s@) is None,
                Err(e) => loaded(text_of(content)) == Err::<SettingsView, SettingsErrorView>(e@)
                    && names_setup(settings_message(e@)),
            },
    {
        let content = match content {
            Some(content) => content,
            None => {
                proof {
                    lemma_settings_errors_name_setup(SettingsErrorView::NotFound);
                }
                return Err(SettingsError::NotFound);
            },
        };
        proof {
            if loaded_from(content@) is Err {
                lemma_settings_errors_name_setup(loaded_from(content@)->Err_0);
            }
        }
        let doc = match Json::decode(content) {
            Ok(doc) => doc,
            Err(message) => {
                return Err(SettingsError::Malformed(message));
            },
        };
        let settings = match Settings::from_json(&doc) {
            Some(settings) => settings,
            None => {
                return Err(SettingsError::Shape);
            },
        };
        match settings.validate() {
            Ok(_) => Ok(settings),
            Err(e) => Err(e),
        }
    }
}

/// The models that the cloud backend offers, in the order in which setup
/// lists them.
pub fn cerebras_models() -> (r: Vec<&'static str>)
    ensures
        r@.len() == 6,
        r@[0]@ == "llama3.3-70b"@,
        r@[1]@ == "llama3.1-8b"@,
        r@[2]@ == "gpt-oss-120b"@,
        r@[3]@ == "qwen-3-235b-a22b-instruct-2507"@,
        r@[4]@ == "qwen-3-235b-a22b-thinking-2507"@,
        r@[5]@ == "qwen-3-coder-480b"@,
{
    let mut models: Vec<&'static str> = Vec::new();
    models.push("llama3.3-70b");
    models.push("llama3.1-8b");
    models.push("gpt-oss-120b");
    models.push("qwen-3-235b-a22b-instruct-2507");
    models.push("qwen-3-235b-a22b-thinking-2507");
    models.push("qwen-3-coder-480b");
    models
}

/// What is wrong with an answer given during setup.
#[derive(Clone, Copy, Debug, PartialEq, Eq, Structural)]
pub enum SetupError {
    /// The provider is chosen with `1` or `2`.
    InvalidChoice,
    /// The number names no model of the list.
    InvalidSelection,
    /// The model has no name.
    EmptyModel,
    /// The API key is empty.
    EmptyApiKey,
}

/// The line that tells the user of a setup error.
pub open spec fn setup_message(error: SetupError) -> Seq<char> {
    match error {
        SetupError::InvalidChoice => "Invalid choice. Please enter 1 or 2."@,
        SetupError::InvalidSelection => "Invalid selection."@,
        SetupError::EmptyModel => "Model name cannot be empty"@,
        SetupError::EmptyApiKey => "API key cannot be empty"@,
    }
}

impl SetupError {
    /// The line that tells the user of the error.
    pub fn message(&self) -> (r: &'static str)
        ensures
            r@ == setup_message(*self),
    {
        match self {
            SetupError::InvalidChoice => "Invalid choice. Please enter 1 or 2.",
            SetupError::InvalidSelection => "Invalid selection.",
            SetupError::EmptyModel => "Model name cannot be empty",
            SetupError::EmptyApiKey => "API key cannot be empty",
        }
    }
}

/// The provider that setup was told to use.
#[derive(Clone, Copy, Debug, PartialEq, Eq, Structural)]
pub enum ProviderChoice {
    Ollama,
    Cerebras,
}

/// The provider that an answer chooses: `1` the local one, `2` the cloud.
pub open spec fn provider_chosen(answer: Seq<char>) -> Result<ProviderChoice, SetupError> {
    if trimmed(answer) == "1"@ {
        Ok(ProviderChoice::Ollama)
    } else if trimmed(answer) == "2"@ {
        Ok(ProviderChoice::Cerebras)
    } else {
        Err(SetupError::InvalidChoice)
    }
}

/// The provider that an answer chooses.
pub fn provider_choice(answer: &str) -> (r: Result<ProviderChoice, SetupError>)
    ensures
        r == provider_chosen(answer@),
{
    let choice = trim(answer);
    if same_text(choice, "1") {
        Ok(ProviderChoice::Ollama)
    } else if same_text(choice, "2") {
        Ok(ProviderChoice::Cerebras)
    } else {
        Err(SetupError::InvalidChoice)
    }
}

/// The base URL that an answer gives: the answer without the white space
/// around it, and the local default where nothing is left.
pub open spec fn base_url_chosen(answer: Seq<char>) -> Seq<char> {
    if trimmed(answer).len() == 0 {
        "http://localhost:11434"@
    } else {
        trimmed(answer)
    }
}

/// The base URL that an answer gives.
pub fn base_url_choice(answer: &str) -> (r: String)
    ensures
        r@ == base_url_chosen(answer@),
{
    let url = trim(answer);
    if url.is_empty() {
        String::from_str("http://localhost:11434")
    } else {
        url.to_owned()
    }
}

/// A model name, which may not be empty.
pub open spec fn model_named(name: Seq<char>) -> Result<Seq<char>, SetupError> {
    if name.len() == 0 {
        Err(SetupError::EmptyModel)
    } else {
        Ok(name)
    }
}

/// The model that an answer chooses from the models that the local backend
/// has: a number picks from the list, counting from 1, and any other text
/// is the model's name.
pub open spec fn ollama_model_chosen(answer: Seq<char>, available: Seq<Seq<char>>) -> Result<
    Seq<char>,
    SetupError,
> {
    match decimal(trimmed(answer), usize::MAX as nat) {
        Some(n) => if 1 <= n <= available.len() {
            model_named(available[n - 1])
        } else {
            Err(SetupError::InvalidSelection)
        },
        None => model_named(trimmed(answer)),
    }
}

/// The characters of each string in `names`.
pub open spec fn names_view(names: Seq<String>) -> Seq<Seq<char>> {
    Seq::new(names.len(), |i: int| names[i]@)
}

/// The model that an answer chooses from the models that the local backend
/// has.
pub fn ollama_model_choice(answer: &str, available: &Vec<String>) -> (r: Result<String, SetupError>)
    ensures
        match r {
            Ok(model) => ollama_model_chosen(answer@, names_view(available@)) == Ok::<
                Seq<char>,
                SetupError,
            >(model@),
            Err(e) => ollama_model_chosen(answer@, names_view(available@)) == Err::<
                Seq<char>,
                SetupError,
            >(e),
        },
{
    let choice = trim(answer);
    let chars = chars_of(choice);
    proof {
        assert(chars@.subrange(0, chars@.len() as int) =~= chars@);
    }
    let model = match parse_decimal(&chars, 0, chars.len(), usize::MAX as u64) {
        Some(n) => {
            if 1 <= n && n <= available.len() as u64 {
                available[(n - 1) as usize].clone()
            } else {
                return Err(SetupError::InvalidSelection);
            }
        },
        None => choice.to_owned(),
    };
    if model.as_str().is_empty() {
        Err(SetupError::EmptyModel)
    } else {
        Ok(model)
    }
}

/// The model of the cloud backend that an answer chooses: a number picks
/// from the list of `count` models, counting from 1.
pub open spec fn cerebras_model_chosen(answer: Seq<char>, count: nat) -> Result<nat, SetupError> {
    match decimal(trimmed(answer), usize::MAX as nat) {
        Some(n) => if 1 <= n <= count {
            Ok((n - 1) as nat)
        } else {
            Err(SetupError::InvalidSelection)
        },
        None => Err(SetupError::InvalidSelection),
    }
}

/// The model of the cloud backend that an answer chooses.
pub fn cerebras_model_choice(answer: &str) -> (r: Result<&'static str, SetupError>)
    ensures
        match r {
            Ok(model) => cerebras_model_chosen(answer@, 6) is Ok && model@ == cerebras_models_view()[cerebras_model_chosen(
                answer@,
                6,
            )->Ok_0 as int],
            Err(e) => cerebras_model_chosen(answer@, 6) == Err::<nat, SetupError>(e),
        },
{
    let models = cerebras_models();
    let choice = trim(answer);
    let chars = chars_of(choice);
    proof {
        assert(chars@.subrange(0, chars@.len() as int) =~= chars@);
    }
    match parse_decimal(&chars, 0, chars.len(), usize::MAX as u64) {
        Some(n) => {
            if 1 <= n && n <= 6 {
                Ok(models[(n - 1) as usize])
            } else {
                Err(SetupError::InvalidSelection)
            }
        },
        None => Err(SetupError::InvalidSelection),
    }
}

/// The names of the models that the cloud backend offers.
pub open spec fn cerebras_models_view() -> Seq<Seq<char>> {
    seq![
        "llama3.3-70b"@,
        "llama3.1-8b"@,
        "gpt-oss-120b"@,
        "qwen-3-235b-a22b-instruct-2507"@,
        "qwen-3-235b-a22b-thinking-2507"@,
        "qwen-3-coder-480b"@,
    ]
}

/// The API key that an answer gives: the answer without the white space
/// around it, which may not be empty.
pub open spec fn api_key_chosen(answer: Seq<char>) -> Result<Seq<char>, SetupError> {
    if trimmed(answer).len() == 0 {
        Err(SetupError::EmptyApiKey)
    } else {
        Ok(trimmed(answer))
    }
}

/// The API key that an answer gives.
pub fn api_key_choice(answer: &str) -> (r: Result<String, SetupError>)
    ensures
        match r {
            Ok(key) => api_key_chosen(answer@) == Ok::<Seq<char>, SetupError>(key@),
            Err(e) => api_key_chosen(answer@) == Err::<Seq<char>, SetupError>(e),
        },
{
    let key = trim(answer);
    if key.is_empty() {
        Err(SetupError::EmptyApiKey)
    } else {
        Ok(key.to_owned())
    }
}

/// Whether an answer to a yes-or-no question says yes: every answer does
/// but `n` and `N`.
pub open spec fn says_yes(answer: Seq<char>) -> bool {
    trimmed(answer) != "n"@ && trimmed(answer) != "N"@
}

/// Whether an answer to a yes-or-no question says yes.
pub fn answer_is_yes(answer: &str) -> (r: bool)
    ensures
        r == says_yes(answer@),
{
    let word = trim(answer);
    !same_text(word, "n") && !same_text(word, "N")
}

/// The output settings that four answers give, in the order command,
/// description, explanation, severity.
pub fn output_settings_from(command: &str, description: &str, explanation: &str, severity: &str) -> (r:
    OutputSettings)
    ensures
        r == (OutputSettings {
            show_command: says_yes(command@),
            show_description: says_yes(description@),
            show_explanation: says_yes(explanation@),
            show_severity: says_yes(severity@),
        }),
{
    OutputSettings {
        show_command: answer_is_yes(command),
        show_description: answer_is_yes(description),
        show_explanation: answer_is_yes(explanation),
        show_severity: answer_is_yes(severity),
    }
}

impl Settings {
    /// Settings for the local backend.
    pub fn for_ollama(model: String, base_url: String, output_settings: OutputSettings) -> (r:
        Settings)
        ensures
            r@ == (SettingsView {
                provider: "ollama"@,
                cerebras_api_key: None,
                ollama_model: Some(model@),
                ollama_base_url: Some(base_url@),
                output_settings,
            }),
    {
        Settings {
            provider: String::from_str("ollama"),
            cerebras_api_key: None,
            ollama_model: Some(model),
            ollama_base_url: Some(base_url),
            output_settings,
        }
    }

    /// Settings for the cloud backend.
    pub fn for_cerebras(api_key: String, model: String, output_settings: OutputSettings) -> (r:
        Settings)
        ensures
            r@ == (SettingsView {
                provider: "cerebras"@,
                cerebras_api_key: Some(api_key@),
                ollama_model: Some(model@),
                ollama_base_url: None,
                output_settings,
            }),
    {
        Settings {
            provider: String::from_str("cerebras"),
            cerebras_api_key: Some(api_key),
            ollama_model: Some(model),
            ollama_base_url: None,
            output_settings,
        }
    }
}

/// Where a local backend lists its models.
pub fn tags_url(base_url: &str) -> (r: String)
    ensures
        r@ == base_url@ + "/api/tags"@,
{
    base_url.to_owned().concat("/api/tags")
}

/// The names of the elements of `items` that have one: the string under
/// `name`. Elements without one are passed over.
pub open spec fn names_in(items: Seq<JsonValue>) -> Seq<Seq<char>>
    decreases items.len(),
{
    if items.len() == 0 {
        Seq::empty()
    } else {
        names_in(items.drop_last()) + (match items.last().text_member("name"@) {
            Some(name) => seq![name],
            None => Seq::empty(),
        })
    }
}

/// The models that the answer of a local backend lists: the names of the
/// elements of its `models`, and none where it has no such array.
pub open spec fn models_listed(body: Seq<char>) -> Result<Seq<Seq<char>>, Seq<char>> {
    match document(body) {
        None => Err("Failed to parse response: "@ + json_fault(body)),
        Some(doc) => match doc.member("models"@) {
            Some(JsonValue::Array(items)) => Ok(names_in(items)),
            _ => Ok(Seq::empty()),
        },
    }
}

/// The models that the answer of a local backend lists.
pub fn models_in(body: &str) -> (r: Result<Vec<String>, String>)
    ensures
        match r {
            Ok(names) => models_listed(body@) == Ok::<Seq<Seq<char>>, Seq<char>>(
                names_view(names@),
            ),
            Err(e) => models_listed(body@) == Err::<Seq<Seq<char>>, Seq<char>>(e@),
        },
{
    let doc = match Json::decode(body) {
        Ok(doc) => doc,
        Err(message) => {
            return Err(String::from_str("Failed to parse response: ").concat(message.as_str()));
        },
    };
    let mut names: Vec<String> = Vec::new();
    assert(names_view(names@) =~= Seq::<Seq<char>>::empty());
    let models = match doc.member("models") {
        Some(models) => models,
        None => {
            return Ok(names);
        },
    };
    let count = match models.length() {
        Some(count) => count,
        None => {
            return Ok(names);
        },
    };
    let ghost items = models@.items()->0;
    let mut i: usize = 0;
    assert(items.take(0) =~= Seq::<JsonValue>::empty());
    while i < count
        invariant
            i <= count,
            models@ == JsonValue::Array(items),
            items.len() == count,
            names_view(names@) == names_in(items.take(i as int)),
        decreases count - i,
    {
        let ghost before = names_view(names@);
        proof {
            assert(items.take(i + 1).drop_last() =~= items.take(i as int));
            assert(items.take(i + 1).last() == items[i as int]);
        }
        match models.element(i) {
            Some(item) => match item.text_member("name") {
                Some(name) => {
                    names.push(name.clone());
                    assert(names_view(names@) =~= before + seq![name@]);
                },
                None => {
                    assert(before + Seq::<Seq<char>>::empty() =~= before);
                },
            },
            None => {},
        }
        i += 1;
    }
    proof {
        assert(items.take(count as int) =~= items);
    }
    Ok(names)
}

} // verus!
