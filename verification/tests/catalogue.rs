use stringable_enum::Color;
use stringable_enum::LogLevelSerdable;
use stringable_enum::MyEnum;
use stringable_enum::NoDisplayEnum;

#[test]
fn color_tokens() {
    assert_eq!(Color::Always.as_static_str(), "always");
    assert_eq!(Color::Auto.as_static_str(), "auto");
    assert_eq!(Color::Never.as_static_str(), "never");
}

#[test]
fn color_parse_each_token() {
    assert_eq!(Color::from_str("always"), Ok(Color::Always));
    assert_eq!(Color::from_str("auto"), Ok(Color::Auto));
    assert_eq!(Color::from_str("never"), Ok(Color::Never));
}

#[test]
fn color_round_trip() {
    for v in Color::enum_variants() {
        assert_eq!(Color::from_str(v.as_static_str()), Ok(v));
    }
}

#[test]
fn color_catalogue_aligned() {
    let variants = Color::enum_variants();
    let tokens = Color::enum_variant_strings();
    assert_eq!(variants.len(), tokens.len());
    for i in 0..variants.len() {
        assert_eq!(variants[i].as_static_str(), tokens[i]);
    }
}

#[test]
fn color_counts() {
    assert_eq!(Color::NUM_VARIANTS, 3);
    assert_eq!(Color::enum_variants().len(), 3);
    assert_eq!(Color::enum_variant_strings().len(), 3);
}

#[test]
fn color_rejects_unknown_token() {
    assert_eq!(Color::from_str("__not_a_real_token__"), Err(()));
    assert_eq!(Color::from_str(""), Err(()));
    assert_eq!(Color::from_str("Always"), Err(()));
    assert_eq!(Color::from_str("auto "), Err(()));
}

#[test]
fn color_render_is_token() {
    assert_eq!(Color::Always.render(), "always");
    assert_eq!(Color::Auto.render(), "auto");
    assert_eq!(Color::Never.render(), "never");
}

#[test]
fn color_detect_policy() {
    assert_eq!(Color::Always.detect(false), true);
    assert_eq!(Color::Auto.detect(false), false);
    assert_eq!(Color::Never.detect(false), false);
    assert_eq!(Color::Always.detect(true), true);
    assert_eq!(Color::Auto.detect(true), true);
    assert_eq!(Color::Never.detect(true), false);
}

#[test]
fn color_default_is_auto() {
    assert_eq!(Color::default(), Color::Auto);
}

#[test]
fn log_level_tokens() {
    assert_eq!(LogLevelSerdable::Trace.as_static_str(), "trace");
    assert_eq!(LogLevelSerdable::Debug.as_static_str(), "debug");
    assert_eq!(LogLevelSerdable::Info.as_static_str(), "info");
    assert_eq!(LogLevelSerdable::Warn.as_static_str(), "warn");
    assert_eq!(LogLevelSerdable::Error.as_static_str(), "error");
}

#[test]
fn log_level_parse_each_token() {
    assert_eq!(LogLevelSerdable::from_str("trace"), Ok(LogLevelSerdable::Trace));
    assert_eq!(LogLevelSerdable::from_str("debug"), Ok(LogLevelSerdable::Debug));
    assert_eq!(LogLevelSerdable::from_str("info"), Ok(LogLevelSerdable::Info));
    assert_eq!(LogLevelSerdable::from_str("warn"), Ok(LogLevelSerdable::Warn));
    assert_eq!(LogLevelSerdable::from_str("error"), Ok(LogLevelSerdable::Error));
}

#[test]
fn log_level_round_trip() {
    for v in LogLevelSerdable::enum_variants() {
        assert_eq!(LogLevelSerdable::from_str(v.as_static_str()), Ok(v));
    }
}

#[test]
fn log_level_catalogue_aligned() {
    let variants = LogLevelSerdable::enum_variants();
    let tokens = LogLevelSerdable::enum_variant_strings();
    assert_eq!(variants.len(), tokens.len());
    for i in 0..variants.len() {
        assert_eq!(variants[i].as_static_str(), tokens[i]);
    }
}

#[test]
fn log_level_counts() {
    assert_eq!(LogLevelSerdable::NUM_VARIANTS, 5);
    assert_eq!(LogLevelSerdable::enum_variants().len(), 5);
    assert_eq!(LogLevelSerdable::enum_variant_strings().len(), 5);
}

#[test]
fn log_level_rejects_unknown_token() {
    assert_eq!(LogLevelSerdable::from_str("__not_a_real_token__"), Err(()));
    assert_eq!(LogLevelSerdable::from_str("WARN"), Err(()));
    assert_eq!(LogLevelSerdable::from_str("warning"), Err(()));
}

#[test]
fn log_level_render_is_token() {
    assert_eq!(LogLevelSerdable::Warn.render(), "warn");
    assert_eq!(LogLevelSerdable::Error.render(), "error");
}

#[test]
fn log_level_to_tracing() {
    assert_eq!(LogLevelSerdable::Trace.to_tracing(), tracing::Level::TRACE);
    assert_eq!(LogLevelSerdable::Debug.to_tracing(), tracing::Level::DEBUG);
    assert_eq!(LogLevelSerdable::Info.to_tracing(), tracing::Level::INFO);
    assert_eq!(LogLevelSerdable::Warn.to_tracing(), tracing::Level::WARN);
    assert_eq!(LogLevelSerdable::Error.to_tracing(), tracing::Level::ERROR);
}

#[test]
fn log_level_to_tracing_distinct() {
    let variants = LogLevelSerdable::enum_variants();
    for i in 0..variants.len() {
        for j in 0..variants.len() {
            if i != j {
                assert_ne!(variants[i].to_tracing(), variants[j].to_tracing());
            }
        }
    }
}

#[test]
fn log_level_to_tracing_deterministic() {
    for v in LogLevelSerdable::enum_variants() {
        assert_eq!(v.to_tracing(), v.to_tracing());
    }
}

#[test]
fn log_level_default_is_warn() {
    assert_eq!(LogLevelSerdable::default(), LogLevelSerdable::Warn);
}

#[test]
fn my_enum_two_variant_scenario() {
    assert_eq!(MyEnum::NUM_VARIANTS, 2);
    assert_eq!(MyEnum::Foo.as_static_str(), "foo");
    assert_eq!(MyEnum::from_str("bar"), Ok(MyEnum::Bar));
    assert_eq!(MyEnum::from_str("baz"), Err(()));
}

#[test]
fn my_enum_round_trip() {
    for v in MyEnum::enum_variants() {
        assert_eq!(MyEnum::from_str(v.as_static_str()), Ok(v));
    }
}

#[test]
fn my_enum_render_is_token() {
    assert_eq!(MyEnum::Foo.render(), "foo");
    assert_eq!(MyEnum::Bar.render(), "bar");
}

#[test]
fn no_display_enum_three_variant_scenario() {
    assert_eq!(NoDisplayEnum::enum_variants().len(), 3);
    assert_eq!(NoDisplayEnum::NUM_VARIANTS, 3);
    assert_eq!(NoDisplayEnum::OtherGibberish.as_static_str(), "other-gibberish");
}

#[test]
fn no_display_enum_round_trip_and_rejection() {
    for v in NoDisplayEnum::enum_variants() {
        assert_eq!(NoDisplayEnum::from_str(v.as_static_str()), Ok(v));
    }
    assert_eq!(NoDisplayEnum::from_str("__not_a_real_token__"), Err(()));
}

#[test]
fn no_display_enum_catalogue_aligned() {
    let variants = NoDisplayEnum::enum_variants();
    let tokens = NoDisplayEnum::enum_variant_strings();
    assert_eq!(variants.len(), tokens.len());
    for i in 0..variants.len() {
        assert_eq!(variants[i].as_static_str(), tokens[i]);
    }
}
