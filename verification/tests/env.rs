use typesafe_sdk::env::{from_code_or_env, read, setting, Fixed, Var};

#[test]
fn the_names_are_the_documented_ones() {
    assert_eq!(Var::ApiKey.name(), "TYPESAFE_API_KEY");
    assert_eq!(Var::BaseUrl.name(), "TYPESAFE_BASE_URL");
    assert_eq!(Var::DefaultModel.name(), "TYPESAFE_DEFAULT_MODEL");
    assert_eq!(Var::LogLevel.name(), "TYPESAFE_LOG_LEVEL");
}

#[test]
fn a_value_is_trimmed() {
    let env = Fixed::new(&[("TYPESAFE_API_KEY", "  sk_live  ")]);
    assert_eq!(read(&env, Var::ApiKey).as_deref(), Some("sk_live"));
}

#[test]
fn a_blank_value_counts_as_unset() {
    for blank in ["", " ", "\t\n"] {
        let env = Fixed::new(&[("TYPESAFE_API_KEY", blank)]);
        assert_eq!(read(&env, Var::ApiKey), None, "{blank:?} should be unset");
    }
}

#[test]
fn an_explicit_value_beats_the_environment() {
    let env = Fixed::new(&[("TYPESAFE_BASE_URL", "https://env.test")]);
    let chosen = from_code_or_env(Some("https://code.test".to_owned()), &env, Var::BaseUrl);
    assert_eq!(chosen.as_deref(), Some("https://code.test"));
}

#[test]
fn the_environment_is_the_fallback() {
    let env = Fixed::new(&[("TYPESAFE_BASE_URL", "https://env.test")]);
    assert_eq!(
        from_code_or_env(None, &env, Var::BaseUrl).as_deref(),
        Some("https://env.test")
    );
}

#[test]
fn every_variable_is_listed_in_order() {
    let names: Vec<&str> = Var::all().iter().map(|v| v.name()).collect();
    assert_eq!(
        names,
        vec!["TYPESAFE_API_KEY", "TYPESAFE_BASE_URL", "TYPESAFE_DEFAULT_MODEL", "TYPESAFE_LOG_LEVEL"]
    );
    assert_eq!(Var::LogLevel.to_string(), "TYPESAFE_LOG_LEVEL");
}

#[test]
fn the_first_pair_of_a_name_wins_and_others_are_absent() {
    let env = Fixed::new(&[("A", "1"), ("A", "2"), ("B", "3")]);
    assert_eq!(env.value("A").as_deref(), Some("1"));
    assert_eq!(env.value("C"), None);
    assert_eq!(read(&env, Var::BaseUrl), None);
}

#[test]
fn unicode_whitespace_is_trimmed_too() {
    assert_eq!(setting(Some("\u{a0} key \u{3000}".to_owned())).as_deref(), Some("key"));
    assert_eq!(setting(Some("\u{2003}\u{85}".to_owned())), None);
    assert_eq!(setting(Some(" in ner ".to_owned())).as_deref(), Some("in ner"));
    assert_eq!(setting(None), None);
}

#[test]
fn whitespace_is_the_unicode_white_space_set() {
    for c in ['\t', '\n', '\u{b}', '\u{c}', '\r', ' ', '\u{85}', '\u{a0}', '\u{1680}', '\u{2000}', '\u{200a}', '\u{2028}', '\u{2029}', '\u{202f}', '\u{205f}', '\u{3000}'] {
        assert!(typesafe_sdk::text::char_is_space(c), "{c:?}");
        assert_eq!(typesafe_sdk::text::char_is_space(c), c.is_whitespace());
    }
    for c in ['a', '\u{200b}', '\u{feff}', '_', '\u{1f}'] {
        assert!(!typesafe_sdk::text::char_is_space(c), "{c:?}");
    }
}
