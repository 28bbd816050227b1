use red_green_refactor::providers::{
    extract_json_object, patch_json_text, chat_completions_url, chat_user_message,
    gemini_user_message, generate_content_url, Backend, EditMode, LlmProvider, MockProvider,
    ProviderConfig, ProviderFactory, ProviderKind,
};

fn config(kind: ProviderKind, base: Option<&str>, env: Option<&str>) -> ProviderConfig {
    ProviderConfig {
        kind,
        model: "m1".to_string(),
        base_url: base.map(|s| s.to_string()),
        api_key_env: env.map(|s| s.to_string()),
        organization: None,
        api_key_header: None,
        api_key_prefix: None,
    }
}

#[test]
fn extract_object_inside_prose() {
    assert_eq!(extract_json_object("Here: {\"a\": 1} done"), Some("{\"a\": 1}"));
}

#[test]
fn extract_nested_object() {
    assert_eq!(extract_json_object("x {a {b} c} {d}"), Some("{a {b} c}"));
}

#[test]
fn extract_first_of_two_objects() {
    assert_eq!(extract_json_object("{a}{b}"), Some("{a}"));
}

#[test]
fn extract_none_without_braces() {
    assert_eq!(extract_json_object("no json here"), None);
    assert_eq!(extract_json_object(""), None);
}

#[test]
fn extract_unbalanced_open() {
    assert_eq!(extract_json_object("{ {a}"), None);
}

#[test]
fn extract_after_stray_close() {
    assert_eq!(extract_json_object("} {\"a\":1}"), Some("{\"a\":1}"));
    assert_eq!(extract_json_object("}{x}"), Some("{x}"));
    assert_eq!(extract_json_object("}{x}}{y}"), Some("{x}"));
    assert_eq!(extract_json_object("x}{{y}}"), Some("{{y}}"));
}

#[test]
fn extract_non_ascii_text() {
    assert_eq!(extract_json_object("é→ {\"k\": \"ü\"} ñ"), Some("{\"k\": \"ü\"}"));
}

#[test]
fn patch_text_falls_back_to_reply() {
    assert_eq!(patch_json_text("plain"), "plain");
    assert_eq!(patch_json_text("a {b} c"), "{b}");
}

#[test]
fn mock_patch_for_each_role() {
    let p = MockProvider::mock_patch("tester");
    assert_eq!(p.files.len(), 1);
    assert_eq!(p.files[0].path, "red-green-refactor-mock.log");
    assert_eq!(p.files[0].mode, EditMode::Append);
    assert_eq!(p.files[0].content, "// TODO: add a failing test\n");
    assert_eq!(p.commit_message.as_deref(), Some("chore(tester): mock patch"));
    assert!(p.notes.is_none());
    let p = MockProvider::mock_patch("implementor");
    assert_eq!(p.files[0].content, "// TODO: implement feature to make tests pass\n");
    let p = MockProvider::mock_patch("refactorer");
    assert_eq!(p.files[0].content, "// TODO: refactor without changing behavior\n");
    assert_eq!(p.commit_message.as_deref(), Some("chore(refactorer): mock patch"));
}

#[test]
fn mock_provider_trait_call() {
    let p = MockProvider::new().generate_patch("tester", "ctx", "instr").unwrap();
    assert_eq!(p.files[0].content, "// TODO: add a failing test\n");
}

#[test]
fn factory_openai_defaults() {
    match ProviderFactory::build(&config(ProviderKind::OpenAi, None, None)) {
        Backend::OpenAi(e) => {
            assert_eq!(e.model, "m1");
            assert_eq!(e.base, "https://api.openai.com/v1");
            assert_eq!(e.api_key_env, "OPENAI_API_KEY");
        }
        _ => panic!("expected an OpenAI backend"),
    }
}

#[test]
fn factory_gemini_overrides() {
    match ProviderFactory::build(&config(ProviderKind::Gemini, Some("http://local"), Some("K"))) {
        Backend::Gemini(e) => {
            assert_eq!(e.base, "http://local");
            assert_eq!(e.api_key_env, "K");
        }
        _ => panic!("expected a Gemini backend"),
    }
    match ProviderFactory::build(&config(ProviderKind::Gemini, None, None)) {
        Backend::Gemini(e) => {
            assert_eq!(e.base, "https://generativelanguage.googleapis.com");
            assert_eq!(e.api_key_env, "GEMINI_API_KEY");
        }
        _ => panic!("expected a Gemini backend"),
    }
}

#[test]
fn factory_mock() {
    assert!(matches!(ProviderFactory::build(&config(ProviderKind::Mock, None, None)), Backend::Mock(_)));
}

#[test]
fn urls_trim_trailing_slashes() {
    assert_eq!(chat_completions_url("https://x/v1//"), "https://x/v1/chat/completions");
    assert_eq!(
        generate_content_url("https://g/", "gem", "KEY"),
        "https://g/v1beta/models/gem:generateContent?key=KEY"
    );
}

#[test]
fn user_messages() {
    assert_eq!(
        chat_user_message("do it", "ctx"),
        "Instructions:\ndo it\n\nProject context (truncated):\nctx"
    );
    assert_eq!(
        gemini_user_message("tester", "do it", "ctx"),
        "Role: tester\nInstructions:\ndo it\n\nProject context (truncated):\nctx"
    );
}
