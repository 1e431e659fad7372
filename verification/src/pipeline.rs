//! The per-line processing pipeline.
//!
//! For every input line five ordered stages run: template parsing (always;
//! it also defines no-color stripping), theme or auto-detection
//! highlighting (skipped entirely in no-color mode), and width/alignment
//! formatting (only when a target width is configured). The highlighting
//! strategy — compiled theme, legacy per-keyword, auto-detection only, or
//! plain passthrough — is chosen once at construction and never
//! re-evaluated per line.

use vstd::prelude::*;
use vstd::string::StringExecFns;
use crate::ansi::spec_spaces;
use crate::ansi::spec_strip_ansi;
use crate::ansi::spec_take_visible;
use crate::ansi::spec_visible_len;
use crate::ansi::spaces;
use crate::ansi::strip_ansi_chars;
use crate::ansi::take_visible;
use crate::ansi::visible_count;
use crate::auto_detect::AutoDetector;
use crate::auto_detect::spec_apply_rules;
use crate::auto_detect::spec_builtin_rules;
use crate::auto_detect::spec_builtin_rules_compile;
use crate::compiled::CompiledTheme;
use crate::compiled::CompiledThemeView;
use crate::compiled::spec_compile_theme;
use crate::compiled::spec_compiled_icon_assoc;
use crate::compiled::spec_icon_substitute;
use crate::compiled::spec_init_theme;
use crate::compiled::spec_keyword_piece;
use crate::compiled::spec_process_text;
use crate::compiled::spec_theme_compiles;
use crate::compiled::CompiledIconMapping;
use crate::regexes::regex_compiles;
use crate::regexes::regex_pattern_compiles;
use crate::regexes::regex_rewrite;
use crate::regexes::regex_rewritten;
use crate::template_parser::ColorTemplateParser;
use crate::template_parser::spec_process;
use crate::text::chars_of;
use crate::text::push_all;
use crate::text::string_from_chars;
use crate::theme::StyleGroupView;
use crate::theme::Theme;
use crate::theme::ThemeView;
use crate::theme::assoc_find;
use crate::theme::spec_assoc_find;
use crate::theme::spec_group_ansi;

verus! {

/// The errors the pipeline can surface. Only stream failures are fatal to
/// a run; the library reports them as values, the caller decides.
#[derive(Debug)]
pub enum JynxError {
    IoError(String),
    ThemeError(String),
    ProcessingError(String),
}

impl JynxError {
    /// A human-readable description of the error.
    pub fn message(&self) -> (r: String)
        ensures
            match self {
                JynxError::IoError(e) => r@ == "IO error: "@ + e@,
                JynxError::ThemeError(e) => r@ == "Theme error: "@ + e@,
                JynxError::ProcessingError(e) => r@ == "Processing error: "@ + e@,
            },
    {
        match self {
            JynxError::IoError(e) => {
                let mut r = String::from_str("IO error: ");
                r.append(e.as_str());
                r
            },
            JynxError::ThemeError(e) => {
                let mut r = String::from_str("Theme error: ");
                r.append(e.as_str());
                r
            },
            JynxError::ProcessingError(e) => {
                let mut r = String::from_str("Processing error: ");
                r.append(e.as_str());
                r
            },
        }
    }
}

/// Output text alignment.
#[derive(Debug, Clone, Copy, PartialEq, Eq, Structural)]
pub enum TextAlign {
    Left,
    Center,
    Right,
}

/// The character with ASCII uppercase letters folded to lowercase, as a
/// scalar value.
pub open spec fn spec_ascii_lower(c: char) -> int {
    if ('A' as u32) <= c as u32 && c as u32 <= ('Z' as u32) {
        c as u32 + 32
    } else {
        c as u32 as int
    }
}

/// ASCII-case-insensitive string equality.
pub open spec fn spec_eq_ignore_ascii_case(s: Seq<char>, t: Seq<char>) -> bool {
    s.len() == t.len() && forall|i: int|
        0 <= i < s.len() ==> spec_ascii_lower(#[trigger] s[i]) == spec_ascii_lower(t[i])
}

/// The alignment an option string selects: `center` (or `centre`) and
/// `right`, compared without regard to ASCII case; anything else is left
/// alignment.
pub open spec fn spec_align_of(s: Seq<char>) -> TextAlign {
    if spec_eq_ignore_ascii_case(s, "center"@) || spec_eq_ignore_ascii_case(s, "centre"@) {
        TextAlign::Center
    } else if spec_eq_ignore_ascii_case(s, "right"@) {
        TextAlign::Right
    } else {
        TextAlign::Left
    }
}

/// Compares two character vectors without regard to ASCII case.
fn eq_ignore_ascii_case(s: &Vec<char>, t: &Vec<char>) -> (r: bool)
    ensures
        r == spec_eq_ignore_ascii_case(s@, t@),
{
    if s.len() != t.len() {
        return false;
    }
    let n = s.len();
    let mut i: usize = 0;
    while i < n
        invariant
            n == s@.len(),
            n == t@.len(),
            i <= n,
            forall|j: int| 0 <= j < i ==> spec_ascii_lower(#[trigger] s@[j]) == spec_ascii_lower(
                t@[j],
            ),
        decreases n - i,
    {
        let a = s[i] as u32;
        let b = t[i] as u32;
        let la = if a >= ('A' as u32) && a <= ('Z' as u32) {
            a + 32
        } else {
            a
        };
        let lb = if b >= ('A' as u32) && b <= ('Z' as u32) {
            b + 32
        } else {
            b
        };
        if la != lb {
            return false;
        }
        i = i + 1;
    }
    true
}

impl TextAlign {
    /// Parses an alignment option; unrecognized values mean left.
    pub fn from_str(s: &str) -> (r: Self)
        ensures
            r == spec_align_of(s@),
    {
        let cs = chars_of(s);
        let center = chars_of("center");
        let centre = chars_of("centre");
        let right = chars_of("right");
        if eq_ignore_ascii_case(&cs, &center) || eq_ignore_ascii_case(&cs, &centre) {
            TextAlign::Center
        } else if eq_ignore_ascii_case(&cs, &right) {
            TextAlign::Right
        } else {
            TextAlign::Left
        }
    }
}

/// The highlighting strategy, fixed for the process lifetime.
#[derive(Debug, Clone, Copy, PartialEq, Eq, Structural)]
pub enum Strategy {
    /// A compiled theme and a selected filter.
    Compiled,
    /// A theme and filter applied through per-keyword patterns.
    Legacy,
    /// Built-in auto-detection only.
    AutoOnly,
    /// No highlighting at all.
    Passthrough,
}

/// ANSI-aware truncation to `width` visible characters. When text is
/// actually cut and the width exceeds three, the last three visible slots
/// hold an ellipsis.
pub open spec fn spec_truncate_to_width(s: Seq<char>, width: int) -> Seq<char> {
    if width <= 0 {
        Seq::<char>::empty()
    } else if spec_visible_len(s) > width && width > 3 {
        spec_take_visible(s, 0, width - 3) + "..."@
    } else {
        spec_take_visible(s, 0, width)
    }
}

/// Width and alignment formatting: lines at least as wide as the target
/// are truncated; shorter ones are padded with plain spaces — trailing for
/// left, leading for right, split with the extra space on the right for
/// center.
pub open spec fn spec_format_width(s: Seq<char>, width: int, align: TextAlign) -> Seq<char> {
    let vis = spec_visible_len(s);
    if vis >= width {
        spec_truncate_to_width(s, width)
    } else {
        let pad = width - vis;
        match align {
            TextAlign::Left => s + spec_spaces(pad),
            TextAlign::Right => spec_spaces(pad) + s,
            TextAlign::Center => spec_spaces(pad / 2) + s + spec_spaces(pad - pad / 2),
        }
    }
}

/// The legacy per-keyword patterns of one style group from keyword `ki`
/// on: each keyword's alternation piece paired with the group's style,
/// keywords the regex engine rejects skipped.
pub open spec fn spec_legacy_kws(g: StyleGroupView, ki: int) -> Seq<(Seq<char>, Seq<char>)>
    decreases g.keywords.len() - ki,
    when 0 <= ki <= g.keywords.len()
{
    if ki >= g.keywords.len() {
        Seq::<(Seq<char>, Seq<char>)>::empty()
    } else {
        (if regex_compiles(spec_keyword_piece(g.keywords[ki])) {
            seq![(spec_keyword_piece(g.keywords[ki]), spec_group_ansi(g))]
        } else {
            Seq::<(Seq<char>, Seq<char>)>::empty()
        }) + spec_legacy_kws(g, ki + 1)
    }
}

/// The legacy per-keyword patterns of the style groups from `gi` on.
pub open spec fn spec_legacy_styles(
    styles: Seq<(Seq<char>, StyleGroupView)>,
    gi: int,
) -> Seq<(Seq<char>, Seq<char>)>
    decreases styles.len() - gi,
    when 0 <= gi <= styles.len()
{
    if gi >= styles.len() {
        Seq::<(Seq<char>, Seq<char>)>::empty()
    } else {
        spec_legacy_kws(styles[gi].1, 0) + spec_legacy_styles(styles, gi + 1)
    }
}

/// The legacy per-keyword patterns a theme yields under a filter name.
pub open spec fn spec_legacy_patterns(th: ThemeView, fname: Seq<char>) -> Seq<
    (Seq<char>, Seq<char>),
> {
    match spec_assoc_find(th.filters, fname) {
        Some(f) => spec_legacy_styles(f.styles, 0),
        None => Seq::<(Seq<char>, Seq<char>)>::empty(),
    }
}

/// One legacy keyword pass per pattern from `i` on: each match wrapped in
/// the pattern's style and a reset.
pub open spec fn spec_apply_legacy_kws(
    pats: Seq<(Seq<char>, Seq<char>)>,
    i: int,
    text: Seq<char>,
) -> Seq<char>
    decreases pats.len() - i,
    when 0 <= i <= pats.len()
{
    if i >= pats.len() {
        text
    } else {
        spec_apply_legacy_kws(
            pats,
            i + 1,
            regex_rewritten(pats[i].0, text, pats[i].1, "\x1b[0m"@),
        )
    }
}

/// The view of a pattern/style pair vector.
pub open spec fn spec_string_pairs(v: Seq<(String, String)>) -> Seq<(Seq<char>, Seq<char>)> {
    v.map_values(|p: (String, String)| (p.0@, p.1@))
}


/// The view of [`JynxApp`]: its configuration and derived state.
pub struct JynxAppView {
    pub detector: Option<Seq<(Seq<char>, Seq<char>, Seq<char>, Seq<char>)>>,
    pub theme: Option<ThemeView>,
    pub compiled_theme: Option<CompiledThemeView>,
    pub filter: Option<Seq<char>>,
    pub keyword_patterns: Seq<(Seq<char>, Seq<char>)>,
    pub no_color: bool,
    pub width: Option<int>,
    pub align: TextAlign,
    pub strategy: Strategy,
}

/// The line-at-a-time stream processor: template parsing, highlighting,
/// width formatting.
pub struct JynxApp {
    detector: Option<AutoDetector>,
    theme: Option<Theme>,
    compiled_theme: Option<CompiledTheme>,
    filter: Option<String>,
    keyword_patterns: Vec<(String, String)>,
    template_parser: ColorTemplateParser,
    width: Option<usize>,
    align: TextAlign,
    strategy: Strategy,
    no_color: bool,
}

impl View for JynxApp {
    type V = JynxAppView;

    closed spec fn view(&self) -> JynxAppView {
        JynxAppView {
            detector: match self.detector {
                Some(d) => Some(d@),
                None => None,
            },
            theme: match self.theme {
                Some(t) => Some(t@),
                None => None,
            },
            compiled_theme: match self.compiled_theme {
                Some(c) => Some(c@),
                None => None,
            },
            filter: match self.filter {
                Some(f) => Some(f@),
                None => None,
            },
            keyword_patterns: spec_string_pairs(self.keyword_patterns@),
            no_color: self.no_color,
            width: match self.width {
                Some(w) => Some(w as int),
                None => None,
            },
            align: self.align,
            strategy: self.strategy,
        }
    }
}

impl JynxApp {
    /// Well-formedness: each strategy has the state it dispatches on, and
    /// the template parser agrees with the color mode.
    pub closed spec fn wf(&self) -> bool {
        spec_app_wf(self@) && self.template_parser.spec_no_color() == self.no_color
    }
}

/// The derived state a configuration determines: which strategy runs,
/// whether a compiled theme or a detector exists, and which legacy
/// patterns are pre-compiled.
pub open spec fn spec_app_view(
    theme: Option<ThemeView>,
    filter: Option<Seq<char>>,
    width: Option<int>,
    align: Seq<char>,
    no_color: bool,
    use_unicode: bool,
) -> JynxAppView {
    let detector_ok = spec_builtin_rules_compile();
    let compiled_ok = match theme {
        Some(t) => spec_theme_compiles(spec_compile_theme(t)),
        None => false,
    };
    JynxAppView {
        detector: if detector_ok {
            Some(spec_builtin_rules(use_unicode))
        } else {
            None
        },
        theme: theme,
        compiled_theme: if compiled_ok {
            Some(spec_init_theme(spec_compile_theme(theme->0)))
        } else {
            None
        },
        filter: filter,
        keyword_patterns: if !compiled_ok && theme is Some && filter is Some {
            spec_legacy_patterns(theme->0, filter->0)
        } else {
            Seq::<(Seq<char>, Seq<char>)>::empty()
        },
        no_color: no_color,
        width: width,
        align: spec_align_of(align),
        strategy: if compiled_ok && filter is Some {
            Strategy::Compiled
        } else if compiled_ok {
            if detector_ok {
                Strategy::AutoOnly
            } else {
                Strategy::Passthrough
            }
        } else if theme is Some && filter is Some {
            Strategy::Legacy
        } else if detector_ok {
            Strategy::AutoOnly
        } else {
            Strategy::Passthrough
        },
    }
}

/// Well-formedness: each strategy has the state it dispatches on.
pub open spec fn spec_app_wf(a: JynxAppView) -> bool {
    &&& (a.strategy is Compiled ==> a.compiled_theme is Some && a.filter is Some)
    &&& (a.strategy is Legacy ==> a.theme is Some && a.filter is Some)
    &&& (a.strategy is AutoOnly ==> a.detector is Some)
}

/// The highlighting stage of the pipeline, by strategy.
pub open spec fn spec_stage_highlight(a: JynxAppView, t: Seq<char>) -> Seq<char> {
    match a.strategy {
        Strategy::Compiled => spec_process_text(a.compiled_theme->0, t, a.filter->0),
        Strategy::Legacy => spec_legacy_highlight(a, t),
        Strategy::AutoOnly => spec_apply_rules(a.detector->0, 0, t),
        Strategy::Passthrough => t,
    }
}

/// The legacy highlighting path: auto-detection where a detector exists,
/// then icon substitution under the selected filter, then the per-keyword
/// passes.
pub open spec fn spec_legacy_highlight(a: JynxAppView, t: Seq<char>) -> Seq<char> {
    let after_autos = match a.detector {
        Some(rules) => spec_apply_rules(rules, 0, t),
        None => t,
    };
    let after_icons = match spec_assoc_find((a.theme->0).filters, a.filter->0) {
        Some(f) => spec_icon_substitute(
            after_autos,
            spec_compiled_icon_assoc(f.icon_mappings),
            0,
        ),
        None => after_autos,
    };
    spec_apply_legacy_kws(a.keyword_patterns, 0, after_icons)
}

/// The whole per-line pipeline: templates, then highlighting unless
/// no-color mode is on, then width formatting where configured.
pub open spec fn spec_process_line(a: JynxAppView, line: Seq<char>) -> Seq<char> {
    let after_templates = spec_process(line, a.no_color);
    let highlighted = if a.no_color {
        after_templates
    } else {
        spec_stage_highlight(a, after_templates)
    };
    match a.width {
        Some(w) => spec_format_width(highlighted, w, a.align),
        None => highlighted,
    }
}

/// Builds the legacy per-keyword patterns for a theme and filter,
/// skipping keywords whose pattern the regex engine rejects.
fn compile_keyword_patterns(theme: &Theme, filter_name: &String) -> (r: Vec<(String, String)>)
    ensures
        spec_string_pairs(r@) == spec_legacy_patterns(theme@, filter_name@),
{
    let mut patterns: Vec<(String, String)> = Vec::new();
    let filter = match assoc_find(&theme.filters, filter_name) {
        Some(f) => f,
        None => {
            proof {
                assert(spec_string_pairs(patterns@) =~= spec_legacy_patterns(
                    theme@,
                    filter_name@,
                ));
            }
            return patterns;
        },
    };
    let ghost stylesv = filter@.styles;
    let sn = filter.styles.len();
    let mut gi: usize = 0;
    while gi < sn
        invariant
            sn == filter.styles@.len(),
            stylesv == filter@.styles,
            gi <= sn,
            spec_string_pairs(patterns@) + spec_legacy_styles(stylesv, gi as int)
                == spec_legacy_styles(stylesv, 0),
        decreases sn - gi,
    {
        let ghost outer_prev = spec_string_pairs(patterns@);
        let group = &filter.styles[gi].1;
        proof {
            assert(stylesv[gi as int].1 == group@);
        }
        let ansi_style = group.to_ansi();
        let kn = group.keywords.len();
        let mut ki: usize = 0;
        while ki < kn
            invariant
                kn == group.keywords@.len(),
                ki <= kn,
                ansi_style@ == spec_group_ansi(group@),
                spec_string_pairs(patterns@) + spec_legacy_kws(group@, ki as int) == outer_prev
                    + spec_legacy_kws(group@, 0),
            decreases kn - ki,
        {
            let ghost prev = spec_string_pairs(patterns@);
            let piece = crate::compiled::build_keyword_piece(&group.keywords[ki]);
            proof {
                assert(group@.keywords[ki as int] == group.keywords@[ki as int]@);
            }
            if regex_pattern_compiles(piece.as_str()) {
                patterns.push((piece, ansi_style.clone()));
                proof {
                    assert(spec_string_pairs(patterns@) =~= prev.push(
                        (spec_keyword_piece(group@.keywords[ki as int]), spec_group_ansi(group@)),
                    ));
                }
            }
            proof {
                assert(spec_string_pairs(patterns@) + spec_legacy_kws(group@, ki + 1) =~= prev
                    + spec_legacy_kws(group@, ki as int));
            }
            ki = ki + 1;
        }
        proof {
            assert(spec_string_pairs(patterns@) + spec_legacy_styles(stylesv, gi + 1) =~=
                outer_prev + spec_legacy_styles(stylesv, gi as int));
        }
        gi = gi + 1;
    }
    patterns
}

impl JynxApp {
    /// A processor with no theme, no filter, no width and left alignment.
    pub fn new() -> (r: Self)
        ensures
            r@ == spec_app_view(None, None, None, "left"@, false, true),
            spec_app_wf(r@),
            r.wf(),
    {
        Self::with_theme(None, None, None, String::from_str("left"))
    }

    /// A processor with the given theme, filter, width, alignment and
    /// color mode.
    pub fn with_theme_and_options(
        theme: Option<Theme>,
        filter: Option<String>,
        width: Option<usize>,
        align: String,
        no_color: bool,
    ) -> (r: Self)
        ensures
            r@ == spec_app_view(
                match theme {
                    Some(t) => Some(t@),
                    None => None,
                },
                match filter {
                    Some(f) => Some(f@),
                    None => None,
                },
                match width {
                    Some(w) => Some(w as int),
                    None => None,
                },
                align@,
                no_color,
                true,
            ),
            spec_app_wf(r@),
            r.wf(),
    {
        Self::with_theme_internal(theme, filter, width, align, no_color, true)
    }

    /// A processor in color mode with the given theme, filter, width and
    /// alignment.
    pub fn with_theme(
        theme: Option<Theme>,
        filter: Option<String>,
        width: Option<usize>,
        align: String,
    ) -> (r: Self)
        ensures
            r@ == spec_app_view(
                match theme {
                    Some(t) => Some(t@),
                    None => None,
                },
                match filter {
                    Some(f) => Some(f@),
                    None => None,
                },
                match width {
                    Some(w) => Some(w as int),
                    None => None,
                },
                align@,
                false,
                true,
            ),
            spec_app_wf(r@),
            r.wf(),
    {
        Self::with_theme_internal(theme, filter, width, align, false, true)
    }

    /// Like [`JynxApp::with_theme_and_options`], with the terminal's
    /// Unicode support injected as a capability: without it the
    /// auto-detector uses plain-text icons.
    pub fn with_capabilities(
        theme: Option<Theme>,
        filter: Option<String>,
        width: Option<usize>,
        align: String,
        no_color: bool,
        use_unicode: bool,
    ) -> (r: Self)
        ensures
            r@ == spec_app_view(
                match theme {
                    Some(t) => Some(t@),
                    None => None,
                },
                match filter {
                    Some(f) => Some(f@),
                    None => None,
                },
                match width {
                    Some(w) => Some(w as int),
                    None => None,
                },
                align@,
                no_color,
                use_unicode,
            ),
            spec_app_wf(r@),
            r.wf(),
    {
        Self::with_theme_internal(theme, filter, width, align, no_color, use_unicode)
    }

    fn with_theme_internal(
        theme: Option<Theme>,
        filter: Option<String>,
        width: Option<usize>,
        align: String,
        no_color: bool,
        use_unicode: bool,
    ) -> (r: Self)
        ensures
            r@ == spec_app_view(
                match theme {
                    Some(t) => Some(t@),
                    None => None,
                },
                match filter {
                    Some(f) => Some(f@),
                    None => None,
                },
                match width {
                    Some(w) => Some(w as int),
                    None => None,
                },
                align@,
                no_color,
                use_unicode,
            ),
            spec_app_wf(r@),
            r.wf(),
    {
        // The auto-detector degrades gracefully: without it the pipeline
        // falls back toward passthrough.
        let detector = match AutoDetector::new(use_unicode) {
            Ok(d) => Some(d),
            Err(_) => None,
        };
        // Compile the theme once; on any failure fall back to the legacy
        // path.
        let (compiled_theme, use_compiled): (Option<CompiledTheme>, bool) = match &theme {
            Some(t) => {
                match CompiledTheme::from_theme(t) {
                    Ok(mut compiled) => {
                        match compiled.init_runtime() {
                            Ok(_u) => (Some(compiled), true),
                            Err(_) => (None, false),
                        }
                    },
                    Err(_) => (None, false),
                }
            },
            None => (None, false),
        };
        // Pre-compile the per-keyword patterns for the legacy fallback.
        let keyword_patterns: Vec<(String, String)> = if !use_compiled {
            match (&theme, &filter) {
                (Some(t), Some(fname)) => compile_keyword_patterns(t, fname),
                _ => Vec::new(),
            }
        } else {
            Vec::new()
        };
        let strategy = if use_compiled && filter.is_some() {
            Strategy::Compiled
        } else if use_compiled {
            if detector.is_some() {
                Strategy::AutoOnly
            } else {
                Strategy::Passthrough
            }
        } else if theme.is_some() && filter.is_some() {
            Strategy::Legacy
        } else if detector.is_some() {
            Strategy::AutoOnly
        } else {
            Strategy::Passthrough
        };
        let template_parser = ColorTemplateParser::new(no_color);
        let align_parsed = TextAlign::from_str(align.as_str());
        let r = JynxApp {
            detector,
            theme,
            compiled_theme,
            filter,
            keyword_patterns,
            template_parser,
            width,
            align: align_parsed,
            strategy,
            no_color,
        };
        proof {
            if r.keyword_patterns@.len() == 0 {
                assert(spec_string_pairs(r.keyword_patterns@) =~= Seq::<
                    (Seq<char>, Seq<char>),
                >::empty());
            }
        }
        r
    }
}


impl JynxApp {
    /// Applies `:word:` icon substitution from the theme's filter, the
    /// legacy way: each mapped word replaced by its formatted icon, the
    /// rest untouched.
    pub fn apply_icon_patterns(&self, text: &str, theme: &Theme, filter_name: &String) -> (r:
        String)
        ensures
            r@ == match spec_assoc_find(theme@.filters, filter_name@) {
                Some(f) => spec_icon_substitute(
                    text@,
                    spec_compiled_icon_assoc(f.icon_mappings),
                    0,
                ),
                None => text@,
            },
    {
        let filter = match assoc_find(&theme.filters, filter_name) {
            Some(f) => f,
            None => {
                return String::from_str(text);
            },
        };
        let icn = filter.icon_mappings.len();
        let mut compiled_maps: Vec<(String, CompiledIconMapping)> = Vec::new();
        let mut i: usize = 0;
        while i < icn
            invariant
                icn == filter.icon_mappings@.len(),
                i <= icn,
                compiled_maps@.len() == i,
                forall|t: int|
                    0 <= t < i ==> (#[trigger] compiled_maps@[t]).0@ == filter.icon_mappings@[
                        t].0@ && compiled_maps@[t].1@ == crate::compiled::spec_compile_icon(
                        filter@.icon_mappings[t].1,
                    ),
            decreases icn - i,
        {
            let entry = &filter.icon_mappings[i];
            proof {
                assert(filter@.icon_mappings[i as int] == (entry.0@, entry.1@));
            }
            compiled_maps.push(
                (entry.0.clone(), CompiledIconMapping::from_icon_mapping(&entry.1)),
            );
            i = i + 1;
        }
        proof {
            assert forall|t: int| 0 <= t < icn implies crate::theme::spec_pair_assoc(
                compiled_maps@,
            )[t] == spec_compiled_icon_assoc(filter@.icon_mappings)[t] by {
                assert(compiled_maps@[t].0@ == filter.icon_mappings@[t].0@);
            }
            assert(crate::theme::spec_pair_assoc(compiled_maps@) =~= spec_compiled_icon_assoc(
                filter@.icon_mappings,
            ));
        }
        let chars = chars_of(text);
        let substituted = crate::compiled::icon_substitute(&chars, &compiled_maps);
        string_from_chars(&substituted)
    }

    /// Applies the pre-compiled legacy keyword patterns, one pass each.
    pub fn apply_keyword_highlighting(&self, text: &str) -> (r: String)
        ensures
            r@ == spec_apply_legacy_kws(self@.keyword_patterns, 0, text@),
    {
        let ghost patsv = self@.keyword_patterns;
        let mut result = String::from_str(text);
        let n = self.keyword_patterns.len();
        let mut i: usize = 0;
        while i < n
            invariant
                n == self.keyword_patterns@.len(),
                patsv == self@.keyword_patterns,
                i <= n,
                spec_apply_legacy_kws(patsv, i as int, result@) == spec_apply_legacy_kws(
                    patsv,
                    0,
                    text@,
                ),
            decreases n - i,
        {
            let pat = &self.keyword_patterns[i];
            proof {
                assert(patsv[i as int] == (pat.0@, pat.1@));
            }
            result = regex_rewrite(pat.0.as_str(), result.as_str(), pat.1.as_str(), "\x1b[0m");
            i = i + 1;
        }
        result
    }

    /// Processes a single line through the whole pipeline: templates,
    /// highlighting by the chosen strategy, width formatting.
    pub fn process_line(&self, line: &str) -> (r: Result<String, JynxError>)
        requires
            self.wf(),
        ensures
            r matches Ok(out) && out@ == spec_process_line(self@, line@),
    {
        let mut result = self.template_parser.process(line);
        if !self.no_color {
            match self.strategy {
                Strategy::Compiled => {
                    match (&self.compiled_theme, &self.filter) {
                        (Some(ct), Some(fname)) => {
                            result = ct.process_text(result.as_str(), fname.as_str());
                        },
                        _ => {
                            proof {
                                assert(false);
                            }
                        },
                    }
                },
                Strategy::Legacy => {
                    if let Some(detector) = &self.detector {
                        result = detector.highlight_line(result.as_str());
                    }
                    match (&self.theme, &self.filter) {
                        (Some(theme), Some(fname)) => {
                            result = self.apply_icon_patterns(result.as_str(), theme, fname);
                            result = self.apply_keyword_highlighting(result.as_str());
                        },
                        _ => {
                            proof {
                                assert(false);
                            }
                        },
                    }
                },
                Strategy::AutoOnly => {
                    match &self.detector {
                        Some(detector) => {
                            result = detector.highlight_line(result.as_str());
                        },
                        None => {
                            proof {
                                assert(false);
                            }
                        },
                    }
                },
                Strategy::Passthrough => {},
            }
        }
        if let Some(width) = self.width {
            result = self.format_line_width(result.as_str(), width);
        }
        Ok(result)
    }

    /// Pads or truncates a line to the target width, alignment-aware.
    /// Escape sequences do not count toward the visible width.
    pub fn format_line_width(&self, text: &str, width: usize) -> (r: String)
        ensures
            r@ == spec_format_width(text@, width as int, self@.align),
    {
        let chars = chars_of(text);
        let visible_len = crate::ansi::visible_count(&chars);
        if visible_len >= width {
            return Self::truncate_to_width(text, width);
        }
        let padding_needed = width - visible_len;
        match self.align {
            TextAlign::Left => {
                let mut out = chars;
                let pad = spaces(padding_needed);
                push_all(&mut out, &pad);
                string_from_chars(&out)
            },
            TextAlign::Right => {
                let mut out = spaces(padding_needed);
                push_all(&mut out, &chars);
                string_from_chars(&out)
            },
            TextAlign::Center => {
                let left_padding = padding_needed / 2;
                let right_padding = padding_needed - left_padding;
                let mut out = spaces(left_padding);
                push_all(&mut out, &chars);
                let pad = spaces(right_padding);
                push_all(&mut out, &pad);
                string_from_chars(&out)
            },
        }
    }

    /// The number of characters of a line that remain visible once escape
    /// sequences are removed. Counts Unicode scalar values, not terminal
    /// cells, so multi-cell glyphs are under-counted.
    pub fn get_visible_length(text: &str) -> (r: usize)
        ensures
            r as int == spec_visible_len(text@),
    {
        let chars = chars_of(text);
        visible_count(&chars)
    }

    /// Truncates a line to the target visible width, copying escape
    /// sequences through; when text is cut and the width exceeds three,
    /// the last three visible slots hold an ellipsis.
    pub fn truncate_to_width(text: &str, width: usize) -> (r: String)
        ensures
            r@ == spec_truncate_to_width(text@, width as int),
    {
        if width == 0 {
            return String::new();
        }
        let chars = chars_of(text);
        let visible_len = visible_count(&chars);
        if visible_len > width && width > 3 {
            let mut out = take_visible(&chars, width - 3);
            let ellipsis = chars_of("...");
            push_all(&mut out, &ellipsis);
            string_from_chars(&out)
        } else {
            let out = take_visible(&chars, width);
            string_from_chars(&out)
        }
    }

    /// A line with every escape sequence removed.
    pub fn strip_ansi_codes(text: &str) -> (r: String)
        ensures
            r@ == spec_strip_ansi(text@),
    {
        let chars = chars_of(text);
        let stripped = strip_ansi_chars(&chars);
        string_from_chars(&stripped)
    }
}

} // verus!
