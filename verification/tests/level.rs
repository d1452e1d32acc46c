use typesafe_sdk::log::{Level, DEFAULT_LEVEL, LEVELS};

#[test]
fn the_levels_are_ordered_from_most_to_least_verbose() {
    let names: Vec<&str> = LEVELS.iter().map(|l| l.name()).collect();
    assert_eq!(names, vec!["debug", "info", "warn", "error", "off"]);
}

#[test]
fn the_default_silences_a_healthy_client() {
    assert_eq!(DEFAULT_LEVEL, Level::Warn);
    assert!(!Level::Debug.passes(DEFAULT_LEVEL));
    assert!(!Level::Info.passes(DEFAULT_LEVEL));
}

#[test]
fn a_threshold_admits_itself_and_anything_louder() {
    assert!(Level::Info.passes(Level::Debug));
    assert!(Level::Info.passes(Level::Info));
    assert!(!Level::Debug.passes(Level::Info));
}

#[test]
fn off_admits_nothing_at_all() {
    for level in LEVELS {
        assert!(!level.passes(Level::Off), "{} escaped `off`", level.to_string());
    }
}

#[test]
fn an_unknown_level_names_its_source_and_the_valid_ones() {
    let message = Level::parse("chatty", "TYPESAFE_LOG_LEVEL")
        .unwrap_err()
        .message();
    assert_eq!(
        message,
        "Invalid log level \"chatty\" from TYPESAFE_LOG_LEVEL. \
         Expected one of: debug, info, warn, error, off."
    );
}

#[test]
fn every_level_round_trips_through_its_name() {
    for level in LEVELS {
        assert_eq!(Level::parse(level.name(), "test").unwrap(), level);
    }
}

#[test]
fn nothing_is_written_at_off_whatever_the_threshold() {
    for threshold in LEVELS {
        assert!(!Level::Off.passes(threshold));
    }
    assert!(Level::Error.passes(Level::Warn));
    assert!(Level::parse("DEBUG", "x").is_err());
}
