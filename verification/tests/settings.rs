use tella::settings::{
    answer_is_yes, api_key_choice, base_url_choice, cerebras_model_choice, cerebras_models,
    models_in, ollama_model_choice, output_settings_from, provider_choice, tags_url,
    OutputSettings, ProviderChoice, Settings, SettingsError, SetupError,
};

#[test]
fn default_output_settings_show_everything() {
    let o = OutputSettings::default();
    assert!(o.show_command && o.show_description && o.show_explanation && o.show_severity);
}

#[test]
fn load_reads_a_full_ollama_record() {
    let s = Settings::load(Some("{\"provider\":\"ollama\",\"cerebras_api_key\":null,\"ollama_model\":\"llama3\",\"ollama_base_url\":\"http://box:11434\",\"output_settings\":{\"show_command\":true,\"show_description\":false,\"show_explanation\":true,\"show_severity\":false}}"))
    .unwrap();
    assert_eq!(s.provider, "ollama");
    assert_eq!(s.cerebras_api_key, None);
    assert_eq!(s.ollama_model.as_deref(), Some("llama3"));
    assert_eq!(s.ollama_base_url.as_deref(), Some("http://box:11434"));
    assert_eq!(
        s.output_settings,
        OutputSettings {
            show_command: true,
            show_description: false,
            show_explanation: true,
            show_severity: false
        }
    );
}

#[test]
fn load_fills_in_what_may_be_left_out() {
    let s = Settings::load(Some("{\"provider\":\"cerebras\",\"cerebras_api_key\":\"k\"}")).unwrap();
    assert_eq!(s.provider, "cerebras");
    assert_eq!(s.cerebras_api_key.as_deref(), Some("k"));
    assert_eq!(s.ollama_model, None);
    assert_eq!(s.ollama_base_url, None);
    assert_eq!(s.output_settings, OutputSettings::default());
}

#[test]
fn load_reports_each_kind_of_bad_file() {
    match Settings::load(Some("not json")) {
        Err(SettingsError::Malformed(m)) => assert_eq!(m, "expected ident at line 1 column 2"),
        other => panic!("unexpected {:?}", other.map(|_| ())),
    }
    assert!(matches!(Settings::load(Some("[]")), Err(SettingsError::Shape)));
    assert!(matches!(Settings::load(Some("{\"ollama_model\":\"m\"}")), Err(SettingsError::Shape)));
    assert!(matches!(
        Settings::load(Some("{\"provider\":\"ollama\",\"ollama_model\":7}")),
        Err(SettingsError::Shape)
    ));
    assert!(matches!(
        Settings::load(Some("{\"provider\":\"ollama\",\"ollama_model\":\"m\",\"output_settings\":{\"show_command\":true}}")),
        Err(SettingsError::Shape)
    ));
    assert!(matches!(
        Settings::load(Some("{\"provider\":\"cerebras\",\"ollama_model\":\"m\"}")),
        Err(SettingsError::MissingApiKey)
    ));
    assert!(matches!(
        Settings::load(Some("{\"provider\":\"cerebras\",\"cerebras_api_key\":\"\"}")),
        Err(SettingsError::MissingApiKey)
    ));
    assert!(matches!(
        Settings::load(Some("{\"provider\":\"ollama\",\"cerebras_api_key\":\"k\"}")),
        Err(SettingsError::MissingModel)
    ));
    assert!(matches!(
        Settings::load(Some("{\"provider\":\"ollama\",\"ollama_model\":\"\"}")),
        Err(SettingsError::MissingModel)
    ));
    assert!(matches!(
        Settings::load(Some("{\"provider\":\"openai\",\"ollama_model\":\"m\"}")),
        Err(SettingsError::InvalidProvider)
    ));
}

#[test]
fn a_missing_file_is_told_as_such() {
    assert!(matches!(Settings::load(None), Err(SettingsError::NotFound)));
}

#[test]
fn settings_errors_have_their_lines() {
    assert_eq!(
        SettingsError::NotFound.message(),
        "Settings file not found. Run 'tella --settings' to configure."
    );
    assert_eq!(
        SettingsError::Unreadable("denied".to_string()).message(),
        "Failed to read settings file: denied. Run 'tella --settings' to configure."
    );
    assert_eq!(
        SettingsError::Malformed("eof".to_string()).message(),
        "Failed to parse settings file: eof. Run 'tella --settings' to configure."
    );
    assert_eq!(
        SettingsError::Shape.message(),
        "Failed to parse settings file: not a settings record. Run 'tella --settings' to configure."
    );
    assert_eq!(
        SettingsError::MissingApiKey.message(),
        "CEREBRAS_API_KEY is not configured. Run 'tella --settings' to set it up."
    );
    assert_eq!(
        SettingsError::MissingModel.message(),
        "Ollama model is not configured. Run 'tella --settings' to set it up."
    );
    assert_eq!(
        SettingsError::InvalidProvider.message(),
        "Invalid provider in settings. Must be 'ollama' or 'cerebras'. Run 'tella --settings' to set it up."
    );
}

#[test]
fn every_settings_error_names_the_setup_command() {
    for error in [
        SettingsError::NotFound,
        SettingsError::Unreadable("x".to_string()),
        SettingsError::Malformed("y".to_string()),
        SettingsError::Shape,
        SettingsError::MissingApiKey,
        SettingsError::MissingModel,
        SettingsError::InvalidProvider,
    ] {
        assert!(error.message().contains("tella --settings"));
    }
    for text in ["", "not json", "[]", "{}", "{\"provider\":\"x\"}", "{\"provider\":\"ollama\"}"] {
        let e = Settings::load(Some(text)).unwrap_err();
        assert!(e.message().contains("tella --settings"));
    }
}

#[test]
fn validate_checks_what_the_provider_needs() {
    let good = Settings::for_ollama("m".to_string(), "u".to_string(), OutputSettings::default());
    assert!(good.validate().is_ok());
    let cloud = Settings::for_cerebras("k".to_string(), "m".to_string(), OutputSettings::default());
    assert!(cloud.validate().is_ok());
    assert_eq!(cloud.provider, "cerebras");
    assert_eq!(cloud.ollama_base_url, None);
    let mut bad = good.clone();
    bad.ollama_model = None;
    assert!(matches!(bad.validate(), Err(SettingsError::MissingModel)));
    let mut other = good.clone();
    other.provider = "x".to_string();
    assert!(matches!(other.validate(), Err(SettingsError::InvalidProvider)));
}

#[test]
fn provider_is_chosen_with_one_or_two() {
    assert_eq!(provider_choice("1\n"), Ok(ProviderChoice::Ollama));
    assert_eq!(provider_choice(" 2 "), Ok(ProviderChoice::Cerebras));
    assert_eq!(provider_choice("3"), Err(SetupError::InvalidChoice));
    assert_eq!(provider_choice(""), Err(SetupError::InvalidChoice));
    assert_eq!(SetupError::InvalidChoice.message(), "Invalid choice. Please enter 1 or 2.");
}

#[test]
fn base_url_falls_back_to_the_local_default() {
    assert_eq!(base_url_choice("\n"), "http://localhost:11434");
    assert_eq!(base_url_choice(" http://box:1 \n"), "http://box:1");
}

#[test]
fn ollama_model_is_a_number_from_the_list_or_a_name() {
    let available = vec!["llama3".to_string(), "mistral".to_string()];
    assert_eq!(ollama_model_choice("1\n", &available), Ok("llama3".to_string()));
    assert_eq!(ollama_model_choice(" 2", &available), Ok("mistral".to_string()));
    assert_eq!(ollama_model_choice("+2", &available), Ok("mistral".to_string()));
    assert_eq!(ollama_model_choice("0", &available), Err(SetupError::InvalidSelection));
    assert_eq!(ollama_model_choice("3", &available), Err(SetupError::InvalidSelection));
    assert_eq!(ollama_model_choice("phi3\n", &available), Ok("phi3".to_string()));
    assert_eq!(ollama_model_choice("  \n", &available), Err(SetupError::EmptyModel));
    assert_eq!(ollama_model_choice("1", &Vec::new()), Err(SetupError::InvalidSelection));
    assert_eq!(SetupError::InvalidSelection.message(), "Invalid selection.");
    assert_eq!(SetupError::EmptyModel.message(), "Model name cannot be empty");
}

#[test]
fn cerebras_model_is_a_number_from_the_list() {
    assert_eq!(cerebras_models().len(), 6);
    assert_eq!(cerebras_model_choice("1"), Ok("llama3.3-70b"));
    assert_eq!(cerebras_model_choice("6\n"), Ok("qwen-3-coder-480b"));
    assert_eq!(cerebras_model_choice("7"), Err(SetupError::InvalidSelection));
    assert_eq!(cerebras_model_choice("0"), Err(SetupError::InvalidSelection));
    assert_eq!(cerebras_model_choice("llama"), Err(SetupError::InvalidSelection));
}

#[test]
fn api_key_may_not_be_empty() {
    assert_eq!(api_key_choice(" csk-1 \n"), Ok("csk-1".to_string()));
    assert_eq!(api_key_choice("\n"), Err(SetupError::EmptyApiKey));
    assert_eq!(SetupError::EmptyApiKey.message(), "API key cannot be empty");
}

#[test]
fn every_answer_but_n_says_yes() {
    assert!(answer_is_yes("\n"));
    assert!(answer_is_yes("y"));
    assert!(answer_is_yes("no"));
    assert!(!answer_is_yes("n\n"));
    assert!(!answer_is_yes(" N "));
    let o = output_settings_from("y", "n", "", "N");
    assert_eq!(
        o,
        OutputSettings {
            show_command: true,
            show_description: false,
            show_explanation: true,
            show_severity: false
        }
    );
}

#[test]
fn models_are_the_names_in_the_tags_answer() {
    assert_eq!(tags_url("http://localhost:11434"), "http://localhost:11434/api/tags");
    assert_eq!(
        models_in("{\"models\":[{\"name\":\"llama3\"},{\"size\":1},{\"name\":7},{\"name\":\"phi3\"}]}"),
        Ok(vec!["llama3".to_string(), "phi3".to_string()])
    );
    assert_eq!(models_in("{\"models\":[]}"), Ok(Vec::new()));
    assert_eq!(models_in("{}"), Ok(Vec::new()));
    assert_eq!(models_in("{\"models\":\"none\"}"), Ok(Vec::new()));
    assert_eq!(
        models_in("<html>"),
        Err("Failed to parse response: expected value at line 1 column 1".to_string())
    );
}
