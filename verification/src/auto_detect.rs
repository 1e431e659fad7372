//! Auto-detection patterns.
//!
//! Recognizes URLs, version numbers and filesystem paths with built-in
//! regular expressions, applied in that fixed order. Each match is
//! replaced by an icon, a style prefix, the matched text, and a reset.
//! The order is a correctness invariant: the more specific URL pattern
//! runs before the path pattern, and the inserted icons and escape bytes
//! are shaped so that no later pass re-matches text an earlier pass
//! produced.

use vstd::prelude::*;
use vstd::string::StringExecFns;
use crate::regexes::regex_compiles;
use crate::regexes::regex_pattern_compiles;
use crate::regexes::regex_rewrite;
use crate::regexes::regex_rewritten;

verus! {

/// ANSI color codes for basic highlighting.
pub struct Colors;

impl Colors {
    /// Cyan, used for paths.
    pub fn azure() -> (r: String)
        ensures
            r@ == "\x1b[36m"@,
    {
        String::from_str("\x1b[36m")
    }

    /// Green, used for versions.
    pub fn emerald() -> (r: String)
        ensures
            r@ == "\x1b[32m"@,
    {
        String::from_str("\x1b[32m")
    }

    /// Blue, used for URLs.
    pub fn royal() -> (r: String)
        ensures
            r@ == "\x1b[34m"@,
    {
        String::from_str("\x1b[34m")
    }

    /// Reset.
    pub fn reset() -> (r: String)
        ensures
            r@ == "\x1b[0m"@,
    {
        String::from_str("\x1b[0m")
    }

    /// Underline.
    pub fn underline() -> (r: String)
        ensures
            r@ == "\x1b[4m"@,
    {
        String::from_str("\x1b[4m")
    }

    /// Bold.
    pub fn bold() -> (r: String)
        ensures
            r@ == "\x1b[1m"@,
    {
        String::from_str("\x1b[1m")
    }
}

/// Icons for visual enhancement, with plain-text fallbacks for terminals
/// without Unicode support.
pub struct Icons;

impl Icons {
    /// Folder icon for paths.
    pub fn path() -> (r: String)
        ensures
            r@ == "📁"@,
    {
        String::from_str("📁")
    }

    /// Tag icon for versions.
    pub fn version() -> (r: String)
        ensures
            r@ == "🏷️"@,
    {
        String::from_str("🏷️")
    }

    /// Link icon for URLs.
    pub fn url() -> (r: String)
        ensures
            r@ == "🔗"@,
    {
        String::from_str("🔗")
    }

    /// Fallback text icon for paths.
    pub fn path_fallback() -> (r: String)
        ensures
            r@ == "[PATH]"@,
    {
        String::from_str("[PATH]")
    }

    /// Fallback text icon for versions.
    pub fn version_fallback() -> (r: String)
        ensures
            r@ == "[VER]"@,
    {
        String::from_str("[VER]")
    }

    /// Fallback text icon for URLs.
    pub fn url_fallback() -> (r: String)
        ensures
            r@ == "[URL]"@,
    {
        String::from_str("[URL]")
    }
}

/// An auto-detection rule: name, pattern source, style prefix, icon.
pub open spec fn spec_builtin_rules(use_unicode: bool) -> Seq<
    (Seq<char>, Seq<char>, Seq<char>, Seq<char>),
> {
    seq![
        (
            "urls"@,
            "(https?://[^\\s]+)"@,
            "\x1b[4m"@ + "\x1b[34m"@,
            if use_unicode {
                "🔗"@
            } else {
                "[URL]"@
            },
        ),
        (
            "versions"@,
            "\\bv?(\\d+\\.\\d+\\.\\d+(-\\w+)?)\\b"@,
            "\x1b[1m"@ + "\x1b[32m"@,
            if use_unicode {
                "🏷️"@
            } else {
                "[VER]"@
            },
        ),
        (
            "paths"@,
            "\\b([~/][^\\s]+\\.[a-z]{2,4})\\b"@,
            "\x1b[4m"@ + "\x1b[36m"@,
            if use_unicode {
                "📁"@
            } else {
                "[PATH]"@
            },
        ),
    ]
}

/// Whether the `regex` crate accepts all three built-in patterns.
pub open spec fn spec_builtin_rules_compile() -> bool {
    regex_compiles("(https?://[^\\s]+)"@) && regex_compiles(
        "\\bv?(\\d+\\.\\d+\\.\\d+(-\\w+)?)\\b"@,
    ) && regex_compiles("\\b([~/][^\\s]+\\.[a-z]{2,4})\\b"@)
}

/// One pass per rule from rule `i` on: each match replaced by
/// `icon SPACE style match reset`, later rules rescanning the already
/// rewritten text.
pub open spec fn spec_apply_rules(
    rules: Seq<(Seq<char>, Seq<char>, Seq<char>, Seq<char>)>,
    i: int,
    text: Seq<char>,
) -> Seq<char>
    decreases rules.len() - i,
    when 0 <= i <= rules.len()
{
    if i >= rules.len() {
        text
    } else {
        spec_apply_rules(
            rules,
            i + 1,
            regex_rewritten(rules[i].1, text, rules[i].3 + " "@ + rules[i].2, "\x1b[0m"@),
        )
    }
}

/// The built-in auto-detector: the ordered rules URL, version, path.
pub struct AutoDetector {
    rules: Vec<(String, String, String, String)>,
}

impl View for AutoDetector {
    type V = Seq<(Seq<char>, Seq<char>, Seq<char>, Seq<char>)>;

    closed spec fn view(&self) -> Seq<(Seq<char>, Seq<char>, Seq<char>, Seq<char>)> {
        self.rules@.map_values(
            |p: (String, String, String, String)| (p.0@, p.1@, p.2@, p.3@),
        )
    }
}

impl AutoDetector {
    /// Builds the detector, checking each built-in pattern against the
    /// regex engine. Icons are Unicode glyphs or plain-text fallbacks,
    /// as the injected capability says.
    pub fn new(use_unicode: bool) -> (r: Result<AutoDetector, String>)
        ensures
            r is Ok <==> spec_builtin_rules_compile(),
            r matches Ok(d) ==> d@ == spec_builtin_rules(use_unicode),
    {
        let url_pattern = String::from_str("(https?://[^\\s]+)");
        let version_pattern = String::from_str("\\bv?(\\d+\\.\\d+\\.\\d+(-\\w+)?)\\b");
        let path_pattern = String::from_str("\\b([~/][^\\s]+\\.[a-z]{2,4})\\b");
        if !regex_pattern_compiles(url_pattern.as_str()) || !regex_pattern_compiles(
            version_pattern.as_str(),
        ) || !regex_pattern_compiles(path_pattern.as_str()) {
            return Err(String::from_str("failed to compile a built-in auto-detection pattern"));
        }
        let mut url_style = Colors::underline();
        url_style.append("\x1b[34m");
        let mut version_style = Colors::bold();
        version_style.append("\x1b[32m");
        let mut path_style = Colors::underline();
        path_style.append("\x1b[36m");
        let mut rules: Vec<(String, String, String, String)> = Vec::new();
        rules.push(
            (
                String::from_str("urls"),
                url_pattern,
                url_style,
                if use_unicode {
                    Icons::url()
                } else {
                    Icons::url_fallback()
                },
            ),
        );
        rules.push(
            (
                String::from_str("versions"),
                version_pattern,
                version_style,
                if use_unicode {
                    Icons::version()
                } else {
                    Icons::version_fallback()
                },
            ),
        );
        rules.push(
            (
                String::from_str("paths"),
                path_pattern,
                path_style,
                if use_unicode {
                    Icons::path()
                } else {
                    Icons::path_fallback()
                },
            ),
        );
        let d = AutoDetector { rules };
        proof {
            assert(d@ =~= spec_builtin_rules(use_unicode));
        }
        Ok(d)
    }

    /// Applies each rule in order to the line, replacing matches with
    /// `icon SPACE style match reset`.
    pub fn highlight_line(&self, line: &str) -> (r: String)
        ensures
            r@ == spec_apply_rules(self@, 0, line@),
    {
        let mut result = String::from_str(line);
        let n = self.rules.len();
        let mut i: usize = 0;
        while i < n
            invariant
                n == self.rules@.len(),
                i <= n,
                spec_apply_rules(self@, i as int, result@) == spec_apply_rules(self@, 0, line@),
            decreases n - i,
        {
            let rule = &self.rules[i];
            let mut pre = rule.3.clone();
            pre.append(" ");
            pre.append(rule.2.as_str());
            let reset = Colors::reset();
            let rewritten = regex_rewrite(
                rule.1.as_str(),
                result.as_str(),
                pre.as_str(),
                reset.as_str(),
            );
            proof {
                assert(self@[i as int] == (rule.0@, rule.1@, rule.2@, rule.3@));
            }
            result = rewritten;
            i = i + 1;
        }
        result
    }
}

} // verus!
