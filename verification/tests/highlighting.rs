use jynx::auto_detect::AutoDetector;
use jynx::auto_detect::Colors;
use jynx::auto_detect::Icons;
use jynx::compiled::CompiledTheme;
use jynx::pipeline::JynxApp;
use jynx::pipeline::JynxError;
use jynx::theme::AutoDetectionPattern;
use jynx::theme::Filter;
use jynx::theme::IconMapping;
use jynx::theme::StyleGroup;
use jynx::theme::Theme;
use jynx::theme::ThemeMetadata;

fn metadata() -> ThemeMetadata {
    ThemeMetadata {
        name: "test-theme".to_string(),
        version: "1.0.0".to_string(),
        description: "a test theme".to_string(),
    }
}

fn style_group(keywords: &[&str], color: &str, bold: bool) -> StyleGroup {
    StyleGroup {
        keywords: keywords.iter().map(|k| k.to_string()).collect(),
        color: color.to_string(),
        bold,
        italic: false,
        underline: false,
        dim: false,
        strikethrough: false,
    }
}

fn log_filter() -> Filter {
    Filter {
        icon_mappings: vec![(
            "critical".to_string(),
            IconMapping { icon: "F".to_string(), color: "red".to_string() },
        )],
        styles: vec![
            ("errors".to_string(), style_group(&["ERROR"], "crimson", true)),
            ("deploys".to_string(), style_group(&["deploy"], "emerald", false)),
        ],
    }
}

fn theme_with_filter(auto: Vec<(String, AutoDetectionPattern)>) -> Theme {
    Theme {
        metadata: metadata(),
        defaults: None,
        auto_detection: auto,
        compilation: None,
        filters: vec![("log".to_string(), log_filter())],
    }
}

#[test]
fn auto_detector_highlights_urls_versions_paths() {
    let detector = AutoDetector::new(true).unwrap();
    let line = "Deploying v2.3.1 to ~/app/config.yml https://example.com";
    let highlighted = detector.highlight_line(line);
    assert!(highlighted.contains("🔗 \x1b[4m\x1b[34mhttps://example.com\x1b[0m"));
    assert!(highlighted.contains("🏷️ \x1b[1m\x1b[32m2.3.1\x1b[0m"));
    assert!(highlighted.contains("📁 \x1b[4m\x1b[36m/config.yml\x1b[0m"));
}

#[test]
fn auto_detector_fallback_icons() {
    let detector = AutoDetector::new(false).unwrap();
    let highlighted = detector.highlight_line("see https://example.com");
    assert!(highlighted.contains("[URL] \x1b[4m\x1b[34mhttps://example.com\x1b[0m"));
}

#[test]
fn end_to_end_auto_detection_example() {
    // Input with a version, a path and a URL, no theme, color mode on:
    // each span gets its icon, style and reset, applied in the order URL,
    // version, path, without double-processing.
    let app = JynxApp::new();
    let out = app
        .process_line("Deploying v2.3.1 to ~/app/config.yml https://example.com")
        .unwrap();
    assert_eq!(
        out,
        "Deploying 🏷️ \x1b[1m\x1b[32m2.3.1\x1b[0m to ~/app📁 \x1b[4m\x1b[36m/config.yml\x1b[0m \
         🔗 \x1b[4m\x1b[34mhttps://example.com\x1b[0m"
    );
}

#[test]
fn no_color_mode_skips_highlighting() {
    let app = JynxApp::with_theme_and_options(None, None, None, "left".to_string(), true);
    let out = app.process_line("v1.2.3 %c:red(x)").unwrap();
    assert_eq!(out, "v1.2.3 x");
}

#[test]
fn compiled_theme_applies_icons_and_keywords() {
    let theme = theme_with_filter(vec![]);
    let mut compiled = CompiledTheme::from_theme(&theme).unwrap();
    compiled.init_runtime().unwrap();
    let out = compiled.process_text("ERROR :critical: in deploy", "log");
    assert_eq!(
        out,
        "\x1b[38;5;196m\x1b[1mERROR\x1b[0m F \x1b[38;5;9mcritical\x1b[0m in \
         \x1b[38;5;34mdeploy\x1b[0m"
    );
}

#[test]
fn compiled_theme_leaves_unmapped_icon_words() {
    let theme = theme_with_filter(vec![]);
    let mut compiled = CompiledTheme::from_theme(&theme).unwrap();
    compiled.init_runtime().unwrap();
    let out = compiled.process_text(":unknown: word", "log");
    assert_eq!(out, ":unknown: word");
}

#[test]
fn compiled_theme_unknown_filter_means_auto_only() {
    let theme = theme_with_filter(vec![]);
    let mut compiled = CompiledTheme::from_theme(&theme).unwrap();
    compiled.init_runtime().unwrap();
    let out = compiled.process_text("ERROR :critical:", "nosuchfilter");
    assert_eq!(out, "ERROR :critical:");
}

#[test]
fn compiled_and_legacy_paths_agree() {
    // The same filter drives both strategies. The legacy app's theme
    // carries an invalid auto-detection pattern, so compilation fails and
    // the per-keyword fallback runs; the corpus contains nothing the
    // built-in auto-detection would touch.
    let compiled_theme = theme_with_filter(vec![]);
    let broken_auto = AutoDetectionPattern {
        pattern: "(".to_string(),
        color: "red".to_string(),
        bold: false,
        italic: false,
        underline: false,
        dim: false,
        strikethrough: false,
    };
    let legacy_theme = theme_with_filter(vec![("bad".to_string(), broken_auto)]);
    let compiled_app = JynxApp::with_theme(
        Some(compiled_theme),
        Some("log".to_string()),
        None,
        "left".to_string(),
    );
    let legacy_app = JynxApp::with_theme(
        Some(legacy_theme),
        Some("log".to_string()),
        None,
        "left".to_string(),
    );
    let corpus = [
        "ERROR in deploy",
        ":critical: ERROR",
        "nothing to see",
        "deploy :critical: deploy",
        "%c:red(ERROR)",
    ];
    for line in corpus.iter() {
        let a = compiled_app.process_line(line).unwrap();
        let b = legacy_app.process_line(line).unwrap();
        assert_eq!(a, b);
    }
}

#[test]
fn keyword_matching_is_escaped_and_case_insensitive() {
    let theme = Theme {
        metadata: metadata(),
        defaults: None,
        auto_detection: vec![],
        compilation: None,
        filters: vec![(
            "code".to_string(),
            Filter {
                icon_mappings: vec![],
                styles: vec![("dots".to_string(), style_group(&["a.b"], "red", false))],
            },
        )],
    };
    let mut compiled = CompiledTheme::from_theme(&theme).unwrap();
    compiled.init_runtime().unwrap();
    // The dot is escaped: `axb` does not match, `A.B` does (case
    // insensitively).
    assert_eq!(compiled.process_text("axb", "code"), "axb");
    assert_eq!(compiled.process_text("see A.B here", "code"), "see \x1b[38;5;9mA.B\x1b[0m here");
}

#[test]
fn phrase_keywords_match_literally() {
    let theme = Theme {
        metadata: metadata(),
        defaults: None,
        auto_detection: vec![],
        compilation: None,
        filters: vec![(
            "log".to_string(),
            Filter {
                icon_mappings: vec![],
                styles: vec![(
                    "phrases".to_string(),
                    style_group(&["fatal error"], "crimson", false),
                )],
            },
        )],
    };
    let mut compiled = CompiledTheme::from_theme(&theme).unwrap();
    compiled.init_runtime().unwrap();
    assert_eq!(
        compiled.process_text("a fatal error occurred", "log"),
        "a \x1b[38;5;196mfatal error\x1b[0m occurred"
    );
}

#[test]
fn theme_auto_detection_uses_first_capture_group() {
    let auto = AutoDetectionPattern {
        pattern: "ticket-(\\d+)".to_string(),
        color: "amber".to_string(),
        bold: false,
        italic: false,
        underline: false,
        dim: false,
        strikethrough: false,
    };
    let theme = Theme {
        metadata: metadata(),
        defaults: None,
        auto_detection: vec![("tickets".to_string(), auto)],
        compilation: None,
        filters: vec![],
    };
    let mut compiled = CompiledTheme::from_theme(&theme).unwrap();
    compiled.init_runtime().unwrap();
    // The whole match is replaced by the first capture group, styled.
    assert_eq!(
        compiled.process_text("see ticket-42", "none"),
        "see \x1b[38;5;220m42\x1b[0m"
    );
}

#[test]
fn colors_and_icons_constants() {
    assert_eq!(Colors::azure(), "\x1b[36m");
    assert_eq!(Colors::reset(), "\x1b[0m");
    assert_eq!(Icons::url(), "🔗");
    assert_eq!(Icons::url_fallback(), "[URL]");
}

#[test]
fn error_messages_name_their_kind() {
    assert_eq!(JynxError::IoError("boom".to_string()).message(), "IO error: boom");
    assert_eq!(JynxError::ThemeError("bad".to_string()).message(), "Theme error: bad");
    assert_eq!(
        JynxError::ProcessingError("oops".to_string()).message(),
        "Processing error: oops"
    );
}

#[test]
fn width_applies_after_highlighting() {
    let app = JynxApp::with_theme_and_options(None, None, Some(12), "left".to_string(), true);
    let out = app.process_line("%c:red(hi)").unwrap();
    assert_eq!(out, "hi          ");
}
