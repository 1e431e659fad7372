use jynx::theme::AutoDetectionPattern;
use jynx::theme::Filter;
use jynx::theme::IconMapping;
use jynx::theme::InheritanceValue;
use jynx::theme::StyleGroup;
use jynx::theme::Theme;
use jynx::theme::ThemeDefaults;
use jynx::theme::ThemeMetadata;
use jynx::theme::AnsiCodes;
use jynx::compiled::CompiledIconMapping;
use jynx::compiled::CompiledTheme;

fn metadata() -> ThemeMetadata {
    ThemeMetadata {
        name: "test-theme".to_string(),
        version: "1.0.0".to_string(),
        description: "a test theme".to_string(),
    }
}

fn auto_pattern(pattern: &str, color: &str) -> AutoDetectionPattern {
    AutoDetectionPattern {
        pattern: pattern.to_string(),
        color: color.to_string(),
        bold: false,
        italic: false,
        underline: false,
        dim: false,
        strikethrough: false,
    }
}

fn style_group(keywords: &[&str], color: &str, bold: bool) -> StyleGroup {
    StyleGroup {
        keywords: keywords.iter().map(|k| k.to_string()).collect(),
        color: color.to_string(),
        bold,
        italic: false,
        underline: false,
        dim: false,
        strikethrough: false,
    }
}

fn icon(glyph: &str, color: &str) -> IconMapping {
    IconMapping { icon: glyph.to_string(), color: color.to_string() }
}

#[test]
fn default_theme_is_minimal() {
    let theme = Theme::default();
    assert_eq!(theme.metadata.name, "jynx-minimal");
    assert_eq!(theme.metadata.version, "1.0.0");
    assert!(theme.defaults.is_none());
    assert!(theme.auto_detection.is_empty());
    assert!(theme.filters.is_empty());
}

#[test]
fn inheritance_fills_missing_and_keeps_user_entries() {
    let defaults = ThemeDefaults {
        auto_detection: vec![("urls".to_string(), auto_pattern("https?://x", "royal"))],
        filters: vec![(
            "log".to_string(),
            Filter {
                icon_mappings: vec![
                    ("critical".to_string(), icon("A", "red")),
                    ("extra".to_string(), icon("B", "blue")),
                ],
                styles: vec![("warnings".to_string(), style_group(&["WARN"], "amber", false))],
            },
        )],
    };
    let mut theme = Theme {
        metadata: metadata(),
        defaults: Some(defaults),
        auto_detection: vec![],
        compilation: None,
        filters: vec![(
            "log".to_string(),
            Filter {
                icon_mappings: vec![("critical".to_string(), icon("C", "green"))],
                styles: vec![("errors".to_string(), style_group(&["ERROR"], "crimson", true))],
            },
        )],
    };
    theme.apply_inheritance();
    // The default auto-detection entry appears.
    assert_eq!(theme.auto_detection.len(), 1);
    assert_eq!(theme.auto_detection[0].0, "urls");
    // The user's icon mapping wins at the same key; the default-only key
    // appears.
    let critical = theme.get_icon_mapping("log", "critical").unwrap();
    assert_eq!(critical.icon, "C");
    assert_eq!(critical.color, "green");
    let extra = theme.get_icon_mapping("log", "extra").unwrap();
    assert_eq!(extra.icon, "B");
    // Both the user's style group and the default one are present.
    let mut keywords = theme.get_filter_keywords("log");
    keywords.sort();
    assert_eq!(keywords, vec!["ERROR", "WARN"]);
}

#[test]
fn inheritance_without_defaults_changes_nothing() {
    let mut theme = Theme {
        metadata: metadata(),
        defaults: None,
        auto_detection: vec![("x".to_string(), auto_pattern("a", "red"))],
        compilation: None,
        filters: vec![],
    };
    theme.apply_inheritance();
    assert_eq!(theme.auto_detection.len(), 1);
    assert!(theme.filters.is_empty());
}

#[test]
fn inheritance_adds_whole_missing_filter() {
    let defaults = ThemeDefaults {
        auto_detection: vec![],
        filters: vec![(
            "deploy".to_string(),
            Filter {
                icon_mappings: vec![],
                styles: vec![("ok".to_string(), style_group(&["done"], "emerald", false))],
            },
        )],
    };
    let mut theme = Theme {
        metadata: metadata(),
        defaults: Some(defaults),
        auto_detection: vec![],
        compilation: None,
        filters: vec![],
    };
    theme.apply_inheritance();
    assert_eq!(theme.get_filter_keywords("deploy"), vec!["done"]);
}

#[test]
fn icon_lookup_misses() {
    let theme = Theme::default();
    assert!(theme.get_icon_mapping("log", "critical").is_none());
    assert!(theme.get_filter_keywords("log").is_empty());
}

#[test]
fn inheritance_value_accessors() {
    let disabled: InheritanceValue<u32> = InheritanceValue::Disabled("none".to_string());
    assert!(disabled.is_disabled());
    assert!(disabled.value().is_none());
    let other: InheritanceValue<u32> = InheritanceValue::Disabled("off".to_string());
    assert!(!other.is_disabled());
    let value: InheritanceValue<u32> = InheritanceValue::Value(7);
    assert!(!value.is_disabled());
    assert_eq!(value.value(), Some(&7));
}

#[test]
fn style_group_renders_color_then_flags() {
    let mut group = style_group(&["ERROR"], "crimson", true);
    group.underline = true;
    assert_eq!(group.to_ansi(), "\x1b[38;5;196m\x1b[1m\x1b[4m");
    let pattern = auto_pattern("x", "azure");
    assert_eq!(pattern.to_ansi(), "\x1b[38;5;39m");
}

#[test]
fn unknown_color_renders_to_nothing() {
    let group = style_group(&["x"], "notacolor", false);
    assert_eq!(group.to_ansi(), "");
}

#[test]
fn formatted_icon_keeps_icon_outside_color() {
    let mapping = icon("F", "red");
    assert_eq!(mapping.formatted_icon("critical"), "F \x1b[38;5;9mcritical\x1b[0m");
}

#[test]
fn ansi_codes_values() {
    assert_eq!(AnsiCodes::reset(), "\x1b[0m");
    assert_eq!(AnsiCodes::bold(), "\x1b[1m");
    assert_eq!(AnsiCodes::strikethrough(), "\x1b[9m");
}

#[test]
fn compiled_icon_mapping_template() {
    let compiled = CompiledIconMapping::from_icon_mapping(&icon("F", "red"));
    assert_eq!(compiled.color_ansi, "\x1b[38;5;9m");
    assert_eq!(compiled.formatted_template, "F \x1b[38;5;9m{word}\x1b[0m");
}

#[test]
fn checksum_is_stable_and_sensitive() {
    let make_theme = |keyword: &str, color: &str, pattern: &str| Theme {
        metadata: metadata(),
        defaults: None,
        auto_detection: vec![("urls".to_string(), auto_pattern(pattern, "royal"))],
        compilation: None,
        filters: vec![(
            "log".to_string(),
            Filter {
                icon_mappings: vec![("critical".to_string(), icon("F", "red"))],
                styles: vec![(
                    "errors".to_string(),
                    style_group(&[keyword], color, true),
                )],
            },
        )],
    };
    let base = make_theme("ERROR", "crimson", "https?://x");
    let first = CompiledTheme::from_theme(&base).unwrap();
    let second = CompiledTheme::from_theme(&base).unwrap();
    assert_eq!(first.source_checksum, second.source_checksum);
    // Changing any one keyword, color, or pattern string changes the
    // checksum.
    let keyword_changed = make_theme("WARN", "crimson", "https?://x");
    assert_ne!(
        first.source_checksum,
        CompiledTheme::from_theme(&keyword_changed).unwrap().source_checksum
    );
    let color_changed = make_theme("ERROR", "amber", "https?://x");
    assert_ne!(
        first.source_checksum,
        CompiledTheme::from_theme(&color_changed).unwrap().source_checksum
    );
    let pattern_changed = make_theme("ERROR", "crimson", "ftp://x");
    assert_ne!(
        first.source_checksum,
        CompiledTheme::from_theme(&pattern_changed).unwrap().source_checksum
    );
}

#[test]
fn init_runtime_rejects_invalid_patterns() {
    let bad = Theme {
        metadata: metadata(),
        defaults: None,
        auto_detection: vec![("bad".to_string(), auto_pattern("(", "red"))],
        compilation: None,
        filters: vec![],
    };
    let mut compiled = CompiledTheme::from_theme(&bad).unwrap();
    assert!(compiled.init_runtime().is_err());
    let good = Theme {
        metadata: metadata(),
        defaults: None,
        auto_detection: vec![("ok".to_string(), auto_pattern("x+", "red"))],
        compilation: None,
        filters: vec![],
    };
    let mut compiled = CompiledTheme::from_theme(&good).unwrap();
    assert!(compiled.init_runtime().is_ok());
    // The pattern without a capture group was wrapped in one.
    assert_eq!(compiled.auto_detection[0].runtime_pattern.as_deref(), Some("(x+)"));
}
