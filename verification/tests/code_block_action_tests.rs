use omnihub_core::chat::{CodeBlockAction, CodeBlockActionRegistry, LanguageMatcher};

type Click = fn(String, Option<String>);

fn noop(_code: String, _lang: Option<String>) {}

fn action(id: &str, matcher: LanguageMatcher) -> CodeBlockAction<&'static str, Click> {
    CodeBlockAction::new(id.to_string(), "terminal")
        .matcher(matcher)
        .on_click(noop as Click)
        .build()
        .expect("a click handler was given")
}

#[test]
fn builder_without_click_handler_builds_nothing() {
    let built = CodeBlockAction::<&'static str, Click>::new("run".to_string(), "terminal")
        .label("Run".to_string())
        .build();
    assert!(built.is_none());
}

#[test]
fn builder_keeps_what_was_set() {
    let a = CodeBlockAction::<&'static str, Click>::new("run".to_string(), "terminal")
        .icon("play")
        .label("Run".to_string())
        .matcher(LanguageMatcher::python())
        .on_click(noop as Click)
        .build()
        .unwrap();
    assert_eq!(a.id, "run");
    assert_eq!(a.icon, "play");
    assert_eq!(a.label.as_deref(), Some("Run"));
    assert!(a.matcher.matches(Some("py")));
    assert!(!a.matcher.matches(Some("sql")));
}

#[test]
fn default_action_matches_every_block() {
    let a = action("copy", LanguageMatcher::Any);
    assert_eq!(a.icon, "terminal");
    assert!(a.label.is_none());
    assert!(a.matcher.matches(None));
    assert!(a.matcher.matches(Some("anything")));
}

#[test]
fn registry_filters_by_language_in_order() {
    let mut reg: CodeBlockActionRegistry<&'static str, Click> = CodeBlockActionRegistry::new();
    assert!(reg.is_empty());
    reg.register(action("sql-run", LanguageMatcher::sql()));
    reg.register(action("copy", LanguageMatcher::Any));
    reg.register(action("shell", LanguageMatcher::shell()));
    reg.register(action("pg", LanguageMatcher::Prefix("post")));
    assert_eq!(reg.len(), 4);
    assert!(!reg.is_empty());

    let ids = |lang: Option<&str>| -> Vec<String> {
        reg.get_actions_for_lang(lang).iter().map(|a| a.id.clone()).collect()
    };
    assert_eq!(ids(Some("SQL")), vec!["sql-run", "copy"]);
    assert_eq!(ids(Some("PostgreSQL")), vec!["sql-run", "copy", "pg"]);
    assert_eq!(ids(Some("zsh")), vec!["copy", "shell"]);
    assert_eq!(ids(None), vec!["copy"]);
}

#[test]
fn default_registry_is_empty() {
    let reg: CodeBlockActionRegistry<&'static str, Click> = Default::default();
    assert_eq!(reg.len(), 0);
    assert!(reg.get_actions_for_lang(Some("sql")).is_empty());
}
