use jynx::template_parser::ColorTemplateParser;

#[test]
fn test_simple_template() {
    let parser = ColorTemplateParser::new(false);
    let result = parser.process("Status: %c:red(FAILED)");
    assert!(result.contains("FAILED"));
    assert!(result.contains("\x1B[38;5;9m")); // red color code
    assert!(result.contains("\x1B[0m")); // reset code
}

#[test]
fn test_no_color_mode() {
    let parser = ColorTemplateParser::new(true);
    let result = parser.process("Status: %c:red(FAILED) %c:green(OK)");
    assert_eq!(result, "Status: FAILED OK");
}

#[test]
fn test_balanced_parentheses() {
    let parser = ColorTemplateParser::new(false);
    let result = parser.process("%c:red(())");
    assert!(result.contains("()"));
}

#[test]
fn test_function_call_content() {
    let parser = ColorTemplateParser::new(true);
    let result = parser.process("%c:amber(function(param))");
    assert_eq!(result, "function(param)");
}

#[test]
fn test_multiple_templates() {
    let parser = ColorTemplateParser::new(true);
    let result = parser.process("Status: %c:emerald(SUCCESS) - %c:crimson(3 errors)");
    assert_eq!(result, "Status: SUCCESS - 3 errors");
}

#[test]
fn test_square_brackets() {
    let parser = ColorTemplateParser::new(true);
    let result = parser.process("%c:blue([value])");
    assert_eq!(result, "[value]");
}

#[test]
fn test_percent_signs() {
    let parser = ColorTemplateParser::new(true);
    let result = parser.process("%c:green(%test%)");
    assert_eq!(result, "%test%");
}

#[test]
fn test_mixed_parentheses() {
    let parser = ColorTemplateParser::new(true);
    let result = parser.process("%c:crimson(Error: (code 42))");
    assert_eq!(result, "Error: (code 42)");
}

#[test]
fn test_percentage_values() {
    let parser = ColorTemplateParser::new(true);
    let result = parser.process("%c:emerald(100%)");
    assert_eq!(result, "100%");
}

#[test]
fn test_unknown_color() {
    let parser = ColorTemplateParser::new(false);
    let result = parser.process("%c:unknowncolor(text)");
    assert_eq!(result, "%c:unknowncolor(text)"); // Should remain unchanged
}

#[test]
fn test_unbalanced_parentheses() {
    let parser = ColorTemplateParser::new(false);
    let result = parser.process("%c:red(unbalanced");
    assert_eq!(result, "%c:red(unbalanced"); // Should remain unchanged
}

#[test]
fn test_no_nesting() {
    let parser = ColorTemplateParser::new(true);
    // Inner template should be treated as literal text
    let result = parser.process("%c:red(text %c:blue(inner))");
    assert_eq!(result, "text %c:blue(inner)");
}

#[test]
fn test_strip_idempotent_on_template_free_result() {
    let parser = ColorTemplateParser::new(true);
    let once = parser.process("a %c:red(b) c %c:green(d)");
    assert_eq!(once, "a b c d");
    assert_eq!(parser.process(&once), once);
}

#[test]
fn test_color_mode_exact_output() {
    let parser = ColorTemplateParser::new(false);
    let result = parser.process("x %c:red(hi) y");
    assert_eq!(result, "x \x1b[38;5;9mhi\x1b[0m y");
}

#[test]
fn test_strip_empty_input() {
    let parser = ColorTemplateParser::new(true);
    assert_eq!(parser.process(""), "");
}

#[test]
fn test_unknown_color_stripped_in_no_color_mode() {
    // No-color mode strips a balanced template even when its color name
    // does not resolve.
    let parser = ColorTemplateParser::new(true);
    assert_eq!(parser.process("%c:notacolor(x)"), "x");
}
