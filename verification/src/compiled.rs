//! Compiled theme.
//!
//! A read-only snapshot of a theme, derived once per process: pre-built
//! pattern strings and pre-rendered replacement templates, and a checksum
//! over the theme's semantically relevant fields for change detection.
//! The checksum feeds every field in a fixed, canonical order (insertion
//! order of the association vectors) into a 64-bit FNV-1a style hash, so
//! identical themes always produce identical checksums.

use vstd::prelude::*;
use vstd::string::StringExecFns;
use crate::extended_colors::get_extended_color_code;
use crate::extended_colors::spec_color_code;
use crate::regexes::regex_compiles;
use crate::regexes::regex_escape;
use crate::regexes::regex_escaped;
use crate::regexes::regex_pattern_compiles;
use crate::regexes::regex_rewrite;
use crate::regexes::regex_rewritten;
use crate::text::chars_of;
use crate::text::push_all;
use crate::text::string_from_chars;
use crate::theme::AutoDetectionPatternView;
use crate::theme::FilterView;
use crate::theme::IconMappingView;
use crate::theme::IconMapping;
use crate::theme::StyleGroup;
use crate::theme::StyleGroupView;
use crate::theme::Theme;
use crate::theme::ThemeView;
use crate::theme::CloneKeepView;
use crate::theme::assoc_find;
use crate::theme::clone_pair_vec;
use crate::theme::clone_string_vec;
use crate::theme::spec_assoc_find;
use crate::theme::spec_auto_ansi;
use crate::theme::spec_group_ansi;
use crate::theme::spec_pair_assoc;

verus! {

/// The views of a vector's elements, in order.
pub open spec fn spec_views<T: View>(v: Seq<T>) -> Seq<T::V> {
    v.map_values(|x: T| x@)
}

/// A compiled auto-detection pattern: the source pattern, the
/// capture-wrapped pattern installed by `init_runtime`, the rendered
/// style, and the built-in icon for the well-known pattern names.
pub struct CompiledAutoPattern {
    pub name: String,
    pub pattern_str: String,
    pub runtime_pattern: Option<String>,
    pub ansi_style: String,
    pub icon: Option<String>,
}

/// The view of [`CompiledAutoPattern`].
pub struct CompiledAutoPatternView {
    pub name: Seq<char>,
    pub pattern_str: Seq<char>,
    pub runtime_pattern: Option<Seq<char>>,
    pub ansi_style: Seq<char>,
    pub icon: Option<Seq<char>>,
}

impl View for CompiledAutoPattern {
    type V = CompiledAutoPatternView;

    open spec fn view(&self) -> CompiledAutoPatternView {
        CompiledAutoPatternView {
            name: self.name@,
            pattern_str: self.pattern_str@,
            runtime_pattern: match self.runtime_pattern {
                Some(p) => Some(p@),
                None => None,
            },
            ansi_style: self.ansi_style@,
            icon: match self.icon {
                Some(i) => Some(i@),
                None => None,
            },
        }
    }
}

/// A compiled icon mapping: the glyph, the resolved color code, and the
/// pre-rendered template with a `{word}` slot.
pub struct CompiledIconMapping {
    pub icon: String,
    pub color_ansi: String,
    pub formatted_template: String,
}

/// The view of [`CompiledIconMapping`].
pub struct CompiledIconMappingView {
    pub icon: Seq<char>,
    pub color_ansi: Seq<char>,
    pub formatted_template: Seq<char>,
}

impl View for CompiledIconMapping {
    type V = CompiledIconMappingView;

    open spec fn view(&self) -> CompiledIconMappingView {
        CompiledIconMappingView {
            icon: self.icon@,
            color_ansi: self.color_ansi@,
            formatted_template: self.formatted_template@,
        }
    }
}

/// A compiled keyword style group: one alternation pattern over all the
/// group's keywords, the rendered style, and the original keywords.
pub struct CompiledKeywordPattern {
    pub pattern_str: String,
    pub runtime_ready: bool,
    pub ansi_style: String,
    pub keywords: Vec<String>,
}

/// The view of [`CompiledKeywordPattern`].
pub struct CompiledKeywordPatternView {
    pub pattern_str: Seq<char>,
    pub runtime_ready: bool,
    pub ansi_style: Seq<char>,
    pub keywords: Seq<Seq<char>>,
}

impl View for CompiledKeywordPattern {
    type V = CompiledKeywordPatternView;

    open spec fn view(&self) -> CompiledKeywordPatternView {
        CompiledKeywordPatternView {
            pattern_str: self.pattern_str@,
            runtime_ready: self.runtime_ready,
            ansi_style: self.ansi_style@,
            keywords: self.keywords.deep_view(),
        }
    }
}

/// A compiled filter: icon mappings by word, keyword patterns in group
/// declaration order, and the companion list of every group pattern for
/// bulk matching.
pub struct CompiledFilter {
    pub icon_mappings: Vec<(String, CompiledIconMapping)>,
    pub keyword_patterns: Vec<CompiledKeywordPattern>,
    pub pattern_set_str: Vec<String>,
}

/// The view of [`CompiledFilter`].
pub struct CompiledFilterView {
    pub icon_mappings: Seq<(Seq<char>, CompiledIconMappingView)>,
    pub keyword_patterns: Seq<CompiledKeywordPatternView>,
    pub pattern_set_str: Seq<Seq<char>>,
}

impl View for CompiledFilter {
    type V = CompiledFilterView;

    open spec fn view(&self) -> CompiledFilterView {
        CompiledFilterView {
            icon_mappings: spec_pair_assoc(self.icon_mappings@),
            keyword_patterns: spec_views(self.keyword_patterns@),
            pattern_set_str: self.pattern_set_str.deep_view(),
        }
    }
}

/// A compiled theme: metadata for cache validation and the compiled
/// patterns and filters.
pub struct CompiledTheme {
    pub version: String,
    pub source_checksum: u64,
    pub auto_detection: Vec<CompiledAutoPattern>,
    pub filters: Vec<(String, CompiledFilter)>,
}

/// The view of [`CompiledTheme`].
pub struct CompiledThemeView {
    pub version: Seq<char>,
    pub source_checksum: u64,
    pub auto_detection: Seq<CompiledAutoPatternView>,
    pub filters: Seq<(Seq<char>, CompiledFilterView)>,
}

impl View for CompiledTheme {
    type V = CompiledThemeView;

    open spec fn view(&self) -> CompiledThemeView {
        CompiledThemeView {
            version: self.version@,
            source_checksum: self.source_checksum,
            auto_detection: spec_views(self.auto_detection@),
            filters: spec_pair_assoc(self.filters@),
        }
    }
}

/// The FNV-1a 64-bit offset basis.
pub const FNV_OFFSET_BASIS: u64 = 0xcbf29ce484222325;

/// The FNV-1a 64-bit prime.
pub const FNV_PRIME: u64 = 0x100000001b3;

/// One hash step: mix one value into the running state.
pub open spec fn spec_fnv_step(h: u64, x: u64) -> u64 {
    vstd::wrapping::u64_specs::wrapping_mul(h ^ x, FNV_PRIME)
}

/// Mixes the characters of `s` from position `i` on into the state.
pub open spec fn spec_fnv_chars(h: u64, s: Seq<char>, i: int) -> u64
    decreases s.len() - i,
    when 0 <= i <= s.len()
{
    if i >= s.len() {
        h
    } else {
        spec_fnv_chars(spec_fnv_step(h, s[i] as u64), s, i + 1)
    }
}

/// Mixes a whole string into the state: its length first, then each
/// character.
pub open spec fn spec_fnv_string(h: u64, s: Seq<char>) -> u64 {
    spec_fnv_chars(spec_fnv_step(h, s.len() as u64), s, 0)
}

/// Mixes the auto-detection entries from `i` on: name, pattern, color.
pub open spec fn spec_fnv_autos(
    h: u64,
    autos: Seq<(Seq<char>, AutoDetectionPatternView)>,
    i: int,
) -> u64
    decreases autos.len() - i,
    when 0 <= i <= autos.len()
{
    if i >= autos.len() {
        h
    } else {
        spec_fnv_autos(
            spec_fnv_string(
                spec_fnv_string(spec_fnv_string(h, autos[i].0), autos[i].1.pattern),
                autos[i].1.color,
            ),
            autos,
            i + 1,
        )
    }
}

/// Mixes the icon mappings from `i` on: key, icon, color.
pub open spec fn spec_fnv_icons(
    h: u64,
    icons: Seq<(Seq<char>, IconMappingView)>,
    i: int,
) -> u64
    decreases icons.len() - i,
    when 0 <= i <= icons.len()
{
    if i >= icons.len() {
        h
    } else {
        spec_fnv_icons(
            spec_fnv_string(
                spec_fnv_string(spec_fnv_string(h, icons[i].0), icons[i].1.icon),
                icons[i].1.color,
            ),
            icons,
            i + 1,
        )
    }
}

/// Mixes a keyword list from `i` on: its length, then each keyword.
pub open spec fn spec_fnv_keywords(h: u64, kws: Seq<Seq<char>>, i: int) -> u64
    decreases kws.len() - i,
    when 0 <= i <= kws.len()
{
    if i >= kws.len() {
        h
    } else {
        spec_fnv_keywords(spec_fnv_string(h, kws[i]), kws, i + 1)
    }
}

/// Mixes the style groups from `i` on: key, keyword count, keywords,
/// color.
pub open spec fn spec_fnv_styles(
    h: u64,
    styles: Seq<(Seq<char>, StyleGroupView)>,
    i: int,
) -> u64
    decreases styles.len() - i,
    when 0 <= i <= styles.len()
{
    if i >= styles.len() {
        h
    } else {
        spec_fnv_styles(
            spec_fnv_string(
                spec_fnv_keywords(
                    spec_fnv_step(
                        spec_fnv_string(h, styles[i].0),
                        styles[i].1.keywords.len() as u64,
                    ),
                    styles[i].1.keywords,
                    0,
                ),
                styles[i].1.color,
            ),
            styles,
            i + 1,
        )
    }
}

/// Mixes the filters from `i` on: name, icon mappings, style groups.
pub open spec fn spec_fnv_filters(h: u64, filters: Seq<(Seq<char>, FilterView)>, i: int) -> u64
    decreases filters.len() - i,
    when 0 <= i <= filters.len()
{
    if i >= filters.len() {
        h
    } else {
        spec_fnv_filters(
            spec_fnv_styles(
                spec_fnv_icons(
                    spec_fnv_string(h, filters[i].0),
                    filters[i].1.icon_mappings,
                    0,
                ),
                filters[i].1.styles,
                0,
            ),
            filters,
            i + 1,
        )
    }
}

/// The checksum of a theme: metadata name and version, every
/// auto-detection entry, every filter with its icon mappings and style
/// groups, all in declaration order.
pub open spec fn spec_theme_checksum(t: ThemeView) -> u64 {
    spec_fnv_filters(
        spec_fnv_autos(
            spec_fnv_string(spec_fnv_string(FNV_OFFSET_BASIS, t.metadata.name), t.metadata.version),
            t.auto_detection,
            0,
        ),
        t.filters,
        0,
    )
}

/// One executable hash step.
fn fnv_step(h: u64, x: u64) -> (r: u64)
    ensures
        r == spec_fnv_step(h, x),
{
    (h ^ x).wrapping_mul(FNV_PRIME)
}

/// Mixes a whole string into the state.
fn fnv_string(h: u64, s: &str) -> (r: u64)
    ensures
        r == spec_fnv_string(h, s@),
{
    let chars = chars_of(s);
    let n = chars.len();
    let mut state = fnv_step(h, n as u64);
    let mut i: usize = 0;
    while i < n
        invariant
            n == chars@.len(),
            chars@ == s@,
            i <= n,
            spec_fnv_chars(state, chars@, i as int) == spec_fnv_chars(
                spec_fnv_step(h, n as u64),
                chars@,
                0,
            ),
        decreases n - i,
    {
        state = fnv_step(state, chars[i] as u64);
        i = i + 1;
    }
    state
}


/// Computes the checksum of a theme in canonical field order.
fn calculate_theme_checksum(theme: &Theme) -> (r: u64)
    ensures
        r == spec_theme_checksum(theme@),
{
    let mut h = fnv_string(FNV_OFFSET_BASIS, theme.metadata.name.as_str());
    h = fnv_string(h, theme.metadata.version.as_str());
    let ghost autosv = theme@.auto_detection;
    let ghost h_autos = h;
    let an = theme.auto_detection.len();
    let mut i: usize = 0;
    while i < an
        invariant
            an == theme.auto_detection@.len(),
            autosv == theme@.auto_detection,
            i <= an,
            spec_fnv_autos(h, autosv, i as int) == spec_fnv_autos(h_autos, autosv, 0),
        decreases an - i,
    {
        let entry = &theme.auto_detection[i];
        proof {
            assert(autosv[i as int] == (entry.0@, entry.1@));
        }
        h = fnv_string(h, entry.0.as_str());
        h = fnv_string(h, entry.1.pattern.as_str());
        h = fnv_string(h, entry.1.color.as_str());
        i = i + 1;
    }
    let ghost filtersv = theme@.filters;
    let ghost h_filters = h;
    let fnum = theme.filters.len();
    let mut fi: usize = 0;
    while fi < fnum
        invariant
            fnum == theme.filters@.len(),
            filtersv == theme@.filters,
            fi <= fnum,
            spec_fnv_filters(h, filtersv, fi as int) == spec_fnv_filters(h_filters, filtersv, 0),
        decreases fnum - fi,
    {
        let fentry = &theme.filters[fi];
        proof {
            assert(filtersv[fi as int] == (fentry.0@, fentry.1@));
        }
        h = fnv_string(h, fentry.0.as_str());
        let ghost iconsv = fentry.1@.icon_mappings;
        let ghost h_icons = h;
        let icn = fentry.1.icon_mappings.len();
        let mut ii: usize = 0;
        while ii < icn
            invariant
                icn == fentry.1.icon_mappings@.len(),
                iconsv == fentry.1@.icon_mappings,
                ii <= icn,
                spec_fnv_icons(h, iconsv, ii as int) == spec_fnv_icons(h_icons, iconsv, 0),
            decreases icn - ii,
        {
            let ientry = &fentry.1.icon_mappings[ii];
            proof {
                assert(iconsv[ii as int] == (ientry.0@, ientry.1@));
            }
            h = fnv_string(h, ientry.0.as_str());
            h = fnv_string(h, ientry.1.icon.as_str());
            h = fnv_string(h, ientry.1.color.as_str());
            ii = ii + 1;
        }
        let ghost stylesv = fentry.1@.styles;
        let ghost h_styles = h;
        let sn = fentry.1.styles.len();
        let mut si: usize = 0;
        while si < sn
            invariant
                sn == fentry.1.styles@.len(),
                stylesv == fentry.1@.styles,
                si <= sn,
                spec_fnv_styles(h, stylesv, si as int) == spec_fnv_styles(h_styles, stylesv, 0),
            decreases sn - si,
        {
            let sentry = &fentry.1.styles[si];
            proof {
                assert(stylesv[si as int] == (sentry.0@, sentry.1@));
            }
            h = fnv_string(h, sentry.0.as_str());
            let ghost kwsv = sentry.1@.keywords;
            let kn = sentry.1.keywords.len();
            h = fnv_step(h, kn as u64);
            let ghost h_kws = h;
            let mut ki: usize = 0;
            while ki < kn
                invariant
                    kn == sentry.1.keywords@.len(),
                    kwsv == sentry.1@.keywords,
                    ki <= kn,
                    spec_fnv_keywords(h, kwsv, ki as int) == spec_fnv_keywords(h_kws, kwsv, 0),
                decreases kn - ki,
            {
                proof {
                    assert(kwsv[ki as int] == sentry.1.keywords@[ki as int]@);
                }
                h = fnv_string(h, sentry.1.keywords[ki].as_str());
                ki = ki + 1;
            }
            h = fnv_string(h, sentry.1.color.as_str());
            si = si + 1;
        }
        fi = fi + 1;
    }
    h
}

/// A character of an icon word: ASCII letters, digits, underscore.
pub open spec fn is_word_char(c: char) -> bool {
    (('a' as u32) <= c as u32 && c as u32 <= ('z' as u32)) || (('A' as u32) <= c as u32
        && c as u32 <= ('Z' as u32)) || (('0' as u32) <= c as u32 && c as u32 <= ('9' as u32)) || c
        == '_'
}

/// A character an icon word may start with: ASCII letters, underscore.
pub open spec fn is_word_start(c: char) -> bool {
    (('a' as u32) <= c as u32 && c as u32 <= ('z' as u32)) || (('A' as u32) <= c as u32
        && c as u32 <= ('Z' as u32)) || c == '_'
}

/// The first position at or after `j` holding no word character.
pub open spec fn spec_word_run_end(s: Seq<char>, j: int) -> int
    decreases s.len() - j,
    when 0 <= j <= s.len()
{
    if j == s.len() {
        j
    } else if is_word_char(s[j]) {
        spec_word_run_end(s, j + 1)
    } else {
        j
    }
}

pub proof fn lemma_word_run_end_bounds(s: Seq<char>, j: int)
    requires
        0 <= j <= s.len(),
    ensures
        j <= spec_word_run_end(s, j) <= s.len(),
    decreases s.len() - j,
{
    if j < s.len() && is_word_char(s[j]) {
        lemma_word_run_end_bounds(s, j + 1);
    }
}

/// Recognizes a `:word:` span at position `i`: a colon, a word starting
/// with a letter or underscore, and a closing colon. On success yields the
/// position just past the closing colon and the word.
pub open spec fn spec_icon_match(s: Seq<char>, i: int) -> Option<(int, Seq<char>)> {
    if 0 <= i && i + 1 < s.len() && s[i] == ':' && is_word_start(s[i + 1]) {
        let j = spec_word_run_end(s, i + 1);
        if j < s.len() && s[j] == ':' {
            Some((j + 1, s.subrange(i + 1, j)))
        } else {
            None
        }
    } else {
        None
    }
}

pub proof fn lemma_icon_match_bounds(s: Seq<char>, i: int)
    requires
        0 <= i < s.len(),
        spec_icon_match(s, i) is Some,
    ensures
        i < (spec_icon_match(s, i)->0).0 <= s.len(),
{
    lemma_word_run_end_bounds(s, i + 1);
}

/// What a matched `:word:` span becomes under a compiled icon mapping:
/// the icon outside the color codes, then the colored word and a reset.
/// This is the `{word}` slot of the pre-rendered template filled in.
pub open spec fn spec_icon_replacement(m: CompiledIconMappingView, word: Seq<char>) -> Seq<char> {
    m.icon + " "@ + m.color_ansi + word + "\x1b[0m"@
}

/// The `:word:` substitution pass from position `i` on: every recognized
/// span whose word has a mapping is replaced; spans without a mapping stay
/// literal and are not rescanned.
pub open spec fn spec_icon_substitute(
    s: Seq<char>,
    maps: Seq<(Seq<char>, CompiledIconMappingView)>,
    i: int,
) -> Seq<char>
    decreases s.len() - i,
    when 0 <= i <= s.len()
    via spec_icon_substitute_dec
{
    if i >= s.len() {
        Seq::<char>::empty()
    } else {
        match spec_icon_match(s, i) {
            Some((end, word)) => (match spec_assoc_find(maps, word) {
                Some(m) => spec_icon_replacement(m, word),
                None => s.subrange(i, end),
            }) + spec_icon_substitute(s, maps, end),
            None => seq![s[i]] + spec_icon_substitute(s, maps, i + 1),
        }
    }
}

#[via_fn]
proof fn spec_icon_substitute_dec(
    s: Seq<char>,
    maps: Seq<(Seq<char>, CompiledIconMappingView)>,
    i: int,
) {
    if 0 <= i < s.len() && spec_icon_match(s, i) is Some {
        lemma_icon_match_bounds(s, i);
    }
}

fn is_word_char_exec(c: char) -> (r: bool)
    ensures
        r == is_word_char(c),
{
    let u = c as u32;
    (u >= ('a' as u32) && u <= ('z' as u32)) || (u >= ('A' as u32) && u <= ('Z' as u32)) || (u
        >= ('0' as u32) && u <= ('9' as u32)) || c == '_'
}

fn is_word_start_exec(c: char) -> (r: bool)
    ensures
        r == is_word_start(c),
{
    let u = c as u32;
    (u >= ('a' as u32) && u <= ('z' as u32)) || (u >= ('A' as u32) && u <= ('Z' as u32)) || c
        == '_'
}

/// Recognizes a `:word:` span at `i`, returning the position past it and
/// the word.
fn icon_match_at(chars: &Vec<char>, i: usize) -> (r: Option<(usize, Vec<char>)>)
    requires
        i < chars@.len(),
    ensures
        match r {
            Some(step) => spec_icon_match(chars@, i as int) == Some((step.0 as int, step.1@)),
            None => spec_icon_match(chars@, i as int) is None,
        },
{
    let n = chars.len();
    if chars[i] != ':' || i + 1 >= n || !is_word_start_exec(chars[i + 1]) {
        return None;
    }
    let mut j = i + 1;
    let mut word: Vec<char> = Vec::new();
    while j < n && is_word_char_exec(chars[j])
        invariant
            n == chars@.len(),
            i + 1 <= j <= n,
            word@ == chars@.subrange(i + 1, j as int),
            spec_word_run_end(chars@, i + 1) == spec_word_run_end(chars@, j as int),
        decreases n - j,
    {
        word.push(chars[j]);
        j = j + 1;
        assert(word@ =~= chars@.subrange(i + 1, j as int));
    }
    if j < n && chars[j] == ':' {
        Some((j + 1, word))
    } else {
        None
    }
}

/// Applies the `:word:` substitution pass with the given icon mappings.
pub(crate) fn icon_substitute(chars: &Vec<char>, maps: &Vec<(String, CompiledIconMapping)>) -> (r: Vec<
    char,
>)
    ensures
        r@ == spec_icon_substitute(chars@, spec_pair_assoc(maps@), 0),
{
    let ghost mapsv = spec_pair_assoc(maps@);
    let mut result: Vec<char> = Vec::new();
    let mut i: usize = 0;
    while i < chars.len()
        invariant
            i <= chars@.len(),
            mapsv == spec_pair_assoc(maps@),
            result@ + spec_icon_substitute(chars@, mapsv, i as int) == spec_icon_substitute(
                chars@,
                mapsv,
                0,
            ),
        decreases chars@.len() - i,
    {
        let ghost prev = result@;
        match icon_match_at(chars, i) {
            Some((end, word)) => {
                proof {
                    lemma_icon_match_bounds(chars@, i as int);
                }
                let word_string = string_from_chars(&word);
                match assoc_find(maps, &word_string) {
                    Some(m) => {
                        let mut rep = chars_of(m.icon.as_str());
                        let space = chars_of(" ");
                        push_all(&mut rep, &space);
                        let color = chars_of(m.color_ansi.as_str());
                        push_all(&mut rep, &color);
                        push_all(&mut rep, &word);
                        let reset = chars_of("\x1b[0m");
                        push_all(&mut rep, &reset);
                        proof {
                            assert(rep@ =~= spec_icon_replacement(m@, word@));
                        }
                        push_all(&mut result, &rep);
                    },
                    None => {
                        let mut k = i;
                        while k < end
                            invariant
                                i <= k <= end <= chars@.len(),
                                result@ == prev + chars@.subrange(i as int, k as int),
                            decreases end - k,
                        {
                            result.push(chars[k]);
                            k = k + 1;
                            assert(result@ =~= prev + chars@.subrange(i as int, k as int));
                        }
                    },
                }
                proof {
                    assert(result@ + spec_icon_substitute(chars@, mapsv, end as int) =~= prev
                        + spec_icon_substitute(chars@, mapsv, i as int));
                }
                i = end;
            },
            None => {
                result.push(chars[i]);
                proof {
                    assert(result@ + spec_icon_substitute(chars@, mapsv, i + 1) =~= prev
                        + spec_icon_substitute(chars@, mapsv, i as int));
                }
                i = i + 1;
            },
        }
    }
    proof {
        assert(result@ + spec_icon_substitute(chars@, mapsv, i as int) =~= result@);
    }
    result
}


/// Whether `s` holds the character `c`.
pub open spec fn spec_contains_char(s: Seq<char>, c: char) -> bool {
    exists|j: int| 0 <= j < s.len() && s[j] == c
}

/// Scans `s` for the character `c`.
fn contains_char(s: &str, c: char) -> (r: bool)
    ensures
        r == spec_contains_char(s@, c),
{
    let chars = chars_of(s);
    let n = chars.len();
    let mut i: usize = 0;
    while i < n
        invariant
            n == chars@.len(),
            chars@ == s@,
            i <= n,
            forall|t: int| 0 <= t < i ==> s@[t] != c,
        decreases n - i,
    {
        if chars[i] == c {
            return true;
        }
        i = i + 1;
    }
    false
}

/// The alternation piece one keyword compiles to: phrase-like keywords
/// (holding a colon or space) are matched literally, single tokens get
/// word-boundary anchors; both case-insensitively.
pub open spec fn spec_keyword_piece(k: Seq<char>) -> Seq<char> {
    if spec_contains_char(k, ':') || spec_contains_char(k, ' ') {
        "(?i)"@ + regex_escaped(k)
    } else {
        "(?i)\\b"@ + regex_escaped(k) + "\\b"@
    }
}

/// The `|`-joined alternation over the keywords from `i` on.
pub open spec fn spec_keyword_alternation(kws: Seq<Seq<char>>, i: int) -> Seq<char>
    decreases kws.len() - i,
    when 0 <= i <= kws.len()
{
    if i >= kws.len() {
        Seq::<char>::empty()
    } else if i == kws.len() - 1 {
        spec_keyword_piece(kws[i])
    } else {
        spec_keyword_piece(kws[i]) + "|"@ + spec_keyword_alternation(kws, i + 1)
    }
}

/// The single pattern a style group compiles to: the whole alternation in
/// one capture group.
pub open spec fn spec_group_pattern(g: StyleGroupView) -> Seq<char> {
    "("@ + spec_keyword_alternation(g.keywords, 0) + ")"@
}

/// The icon a built-in auto-detection name carries.
pub open spec fn spec_builtin_icon(name: Seq<char>) -> Option<Seq<char>> {
    if name == "paths"@ {
        Some("📁"@)
    } else if name == "versions"@ {
        Some("🏷️"@)
    } else if name == "urls"@ {
        Some("🔗"@)
    } else {
        None
    }
}

/// What one auto-detection entry compiles to.
pub open spec fn spec_compile_auto(
    name: Seq<char>,
    p: AutoDetectionPatternView,
) -> CompiledAutoPatternView {
    CompiledAutoPatternView {
        name: name,
        pattern_str: p.pattern,
        runtime_pattern: None,
        ansi_style: spec_auto_ansi(p),
        icon: spec_builtin_icon(name),
    }
}

/// What one icon mapping compiles to: the resolved color and the
/// pre-rendered template `icon SPACE color {word} reset`.
pub open spec fn spec_compile_icon(m: IconMappingView) -> CompiledIconMappingView {
    CompiledIconMappingView {
        icon: m.icon,
        color_ansi: spec_color_code(m.color),
        formatted_template: m.icon + " "@ + spec_color_code(m.color) + "{word}"@ + "\x1b[0m"@,
    }
}

/// What one style group compiles to.
pub open spec fn spec_compile_group(g: StyleGroupView) -> CompiledKeywordPatternView {
    CompiledKeywordPatternView {
        pattern_str: spec_group_pattern(g),
        runtime_ready: false,
        ansi_style: spec_group_ansi(g),
        keywords: g.keywords,
    }
}

/// The compiled form of an icon-mapping table.
pub open spec fn spec_compiled_icon_assoc(m: Seq<(Seq<char>, IconMappingView)>) -> Seq<
    (Seq<char>, CompiledIconMappingView),
> {
    m.map_values(|e: (Seq<char>, IconMappingView)| (e.0, spec_compile_icon(e.1)))
}

/// What one filter compiles to.
pub open spec fn spec_compile_filter(f: FilterView) -> CompiledFilterView {
    CompiledFilterView {
        icon_mappings: spec_compiled_icon_assoc(f.icon_mappings),
        keyword_patterns: f.styles.map_values(
            |e: (Seq<char>, StyleGroupView)| spec_compile_group(e.1),
        ),
        pattern_set_str: Seq::<Seq<char>>::empty(),
    }
}

/// What a whole theme compiles to.
pub open spec fn spec_compile_theme(t: ThemeView) -> CompiledThemeView {
    CompiledThemeView {
        version: "0.1.0"@,
        source_checksum: spec_theme_checksum(t),
        auto_detection: t.auto_detection.map_values(
            |e: (Seq<char>, AutoDetectionPatternView)| spec_compile_auto(e.0, e.1),
        ),
        filters: t.filters.map_values(|e: (Seq<char>, FilterView)| (e.0, spec_compile_filter(e.1))),
    }
}

impl CompiledIconMapping {
    /// Compiles an icon mapping: resolves its color and pre-renders the
    /// replacement template with a `{word}` slot.
    pub fn from_icon_mapping(mapping: &IconMapping) -> (r: Self)
        ensures
            r@ == spec_compile_icon(mapping@),
    {
        let color_ansi = get_extended_color_code(mapping.color.as_str());
        let mut formatted_template = mapping.icon.clone();
        formatted_template.append(" ");
        formatted_template.append(color_ansi.as_str());
        formatted_template.append("{word}");
        formatted_template.append("\x1b[0m");
        CompiledIconMapping { icon: mapping.icon.clone(), color_ansi, formatted_template }
    }
}

/// Builds the alternation piece for one keyword.
pub(crate) fn build_keyword_piece(k: &String) -> (r: String)
    ensures
        r@ == spec_keyword_piece(k@),
{
    let has_colon = contains_char(k.as_str(), ':');
    let has_space = contains_char(k.as_str(), ' ');
    let escaped = regex_escape(k.as_str());
    if has_colon || has_space {
        let mut r = String::from_str("(?i)");
        r.append(escaped.as_str());
        r
    } else {
        let mut r = String::from_str("(?i)\\b");
        r.append(escaped.as_str());
        r.append("\\b");
        r
    }
}

impl CompiledKeywordPattern {
    /// Compiles a style group into one alternation pattern over all its
    /// keywords.
    pub fn from_style_group(style: &StyleGroup) -> (r: Result<Self, String>)
        ensures
            r matches Ok(p) && p@ == spec_compile_group(style@),
    {
        let ghost kwsv = style@.keywords;
        let kn = style.keywords.len();
        let mut alternation = String::new();
        let mut j: usize = 0;
        while j < kn
            invariant
                kn == style.keywords@.len(),
                kwsv == style@.keywords,
                j <= kn,
                j == 0 ==> alternation@ == Seq::<char>::empty(),
                0 < j < kn ==> alternation@ + "|"@ + spec_keyword_alternation(kwsv, j as int)
                    == spec_keyword_alternation(kwsv, 0),
                j == kn && kn > 0 ==> alternation@ == spec_keyword_alternation(kwsv, 0),
            decreases kn - j,
        {
            let ghost prev = alternation@;
            if j > 0 {
                alternation.append("|");
            }
            let piece = build_keyword_piece(&style.keywords[j]);
            alternation.append(piece.as_str());
            proof {
                assert(kwsv[j as int] == style.keywords@[j as int]@);
                if j == 0 {
                    if kn > 1 {
                        assert(alternation@ + "|"@ + spec_keyword_alternation(kwsv, 1) =~=
                            spec_keyword_alternation(kwsv, 0));
                    }
                } else {
                    if j + 1 < kn {
                        assert(alternation@ + "|"@ + spec_keyword_alternation(kwsv, j + 1) =~= prev
                            + "|"@ + spec_keyword_alternation(kwsv, j as int));
                    } else {
                        assert(alternation@ =~= prev + "|"@ + spec_keyword_alternation(
                            kwsv,
                            j as int,
                        ));
                    }
                }
            }
            j = j + 1;
        }
        let mut pattern_str = String::from_str("(");
        pattern_str.append(alternation.as_str());
        pattern_str.append(")");
        proof {
            if kn == 0 {
                assert(pattern_str@ =~= spec_group_pattern(style@));
            } else {
                assert(pattern_str@ =~= spec_group_pattern(style@));
            }
        }
        Ok(
            CompiledKeywordPattern {
                pattern_str,
                runtime_ready: false,
                ansi_style: style.to_ansi(),
                keywords: clone_string_vec(&style.keywords),
            },
        )
    }
}

impl CompiledFilter {
    /// Compiles a filter: every icon mapping pre-rendered and every style
    /// group turned into one alternation pattern.
    pub fn from_filter(filter: &crate::theme::Filter) -> (r: Result<Self, String>)
        ensures
            r matches Ok(cf) && cf@ == spec_compile_filter(filter@),
    {
        let icn = filter.icon_mappings.len();
        let mut icons: Vec<(String, CompiledIconMapping)> = Vec::new();
        let mut i: usize = 0;
        while i < icn
            invariant
                icn == filter.icon_mappings@.len(),
                i <= icn,
                icons@.len() == i,
                forall|t: int|
                    0 <= t < i ==> (#[trigger] icons@[t]).0@ == filter.icon_mappings@[t].0@
                        && icons@[t].1@ == spec_compile_icon(filter@.icon_mappings[t].1),
            decreases icn - i,
        {
            let entry = &filter.icon_mappings[i];
            proof {
                assert(filter@.icon_mappings[i as int] == (entry.0@, entry.1@));
            }
            icons.push((entry.0.clone(), CompiledIconMapping::from_icon_mapping(&entry.1)));
            i = i + 1;
        }
        let sn = filter.styles.len();
        let mut kwps: Vec<CompiledKeywordPattern> = Vec::new();
        let mut s: usize = 0;
        while s < sn
            invariant
                sn == filter.styles@.len(),
                s <= sn,
                kwps@.len() == s,
                forall|t: int|
                    0 <= t < s ==> (#[trigger] kwps@[t])@ == spec_compile_group(
                        filter@.styles[t].1,
                    ),
            decreases sn - s,
        {
            let entry = &filter.styles[s];
            proof {
                assert(filter@.styles[s as int] == (entry.0@, entry.1@));
            }
            match CompiledKeywordPattern::from_style_group(&entry.1) {
                Ok(p) => {
                    kwps.push(p);
                },
                Err(e) => {
                    return Err(e);
                },
            }
            s = s + 1;
        }
        let cf = CompiledFilter {
            icon_mappings: icons,
            keyword_patterns: kwps,
            pattern_set_str: Vec::new(),
        };
        proof {
            assert forall|t: int| 0 <= t < icn implies cf@.icon_mappings[t]
                == spec_compiled_icon_assoc(filter@.icon_mappings)[t] by {
                assert(cf.icon_mappings@[t].0@ == filter.icon_mappings@[t].0@);
            }
            assert(cf@.icon_mappings =~= spec_compiled_icon_assoc(filter@.icon_mappings));
            assert forall|t: int| 0 <= t < sn implies cf@.keyword_patterns[t] == filter@
                .styles.map_values(|e: (Seq<char>, StyleGroupView)| spec_compile_group(e.1))[t] by {
                assert(kwps@[t]@ == spec_compile_group(filter@.styles[t].1));
            }
            assert(cf@.keyword_patterns =~= filter@.styles.map_values(
                |e: (Seq<char>, StyleGroupView)| spec_compile_group(e.1),
            ));
            assert(cf@.pattern_set_str =~= Seq::<Seq<char>>::empty());
        }
        Ok(cf)
    }
}

impl CompiledAutoPattern {
    /// Compiles one auto-detection entry: renders its style and attaches
    /// the built-in icon its name carries; the pattern itself is compiled
    /// later, by `init_runtime`.
    pub fn from_auto_pattern(
        name: &String,
        pattern: &crate::theme::AutoDetectionPattern,
    ) -> (r: Result<Self, String>)
        ensures
            r matches Ok(p) && p@ == spec_compile_auto(name@, pattern@),
    {
        let icon: Option<String> = if *name == String::from_str("paths") {
            Some(String::from_str("📁"))
        } else if *name == String::from_str("versions") {
            Some(String::from_str("🏷️"))
        } else if *name == String::from_str("urls") {
            Some(String::from_str("🔗"))
        } else {
            None
        };
        Ok(
            CompiledAutoPattern {
                name: name.clone(),
                pattern_str: pattern.pattern.clone(),
                runtime_pattern: None,
                ansi_style: pattern.to_ansi(),
                icon,
            },
        )
    }
}

impl CompiledTheme {
    /// Compiles a theme into its read-only snapshot: checksum, compiled
    /// auto-detection entries, compiled filters.
    pub fn from_theme(theme: &Theme) -> (r: Result<Self, String>)
        ensures
            r matches Ok(ct) && ct@ == spec_compile_theme(theme@),
    {
        let source_checksum = calculate_theme_checksum(theme);
        let an = theme.auto_detection.len();
        let mut autos: Vec<CompiledAutoPattern> = Vec::new();
        let mut i: usize = 0;
        while i < an
            invariant
                an == theme.auto_detection@.len(),
                i <= an,
                autos@.len() == i,
                forall|t: int|
                    0 <= t < i ==> (#[trigger] autos@[t])@ == spec_compile_auto(
                        theme@.auto_detection[t].0,
                        theme@.auto_detection[t].1,
                    ),
            decreases an - i,
        {
            let entry = &theme.auto_detection[i];
            proof {
                assert(theme@.auto_detection[i as int] == (entry.0@, entry.1@));
            }
            match CompiledAutoPattern::from_auto_pattern(&entry.0, &entry.1) {
                Ok(p) => {
                    autos.push(p);
                },
                Err(e) => {
                    return Err(e);
                },
            }
            i = i + 1;
        }
        let fnum = theme.filters.len();
        let mut filters: Vec<(String, CompiledFilter)> = Vec::new();
        let mut fi: usize = 0;
        while fi < fnum
            invariant
                fnum == theme.filters@.len(),
                fi <= fnum,
                filters@.len() == fi,
                forall|t: int|
                    0 <= t < fi ==> (#[trigger] filters@[t]).0@ == theme.filters@[t].0@
                        && filters@[t].1@ == spec_compile_filter(theme@.filters[t].1),
            decreases fnum - fi,
        {
            let entry = &theme.filters[fi];
            proof {
                assert(theme@.filters[fi as int] == (entry.0@, entry.1@));
            }
            match CompiledFilter::from_filter(&entry.1) {
                Ok(cf) => {
                    filters.push((entry.0.clone(), cf));
                },
                Err(e) => {
                    return Err(e);
                },
            }
            fi = fi + 1;
        }
        let ct = CompiledTheme {
            version: String::from_str("0.1.0"),
            source_checksum,
            auto_detection: autos,
            filters,
        };
        proof {
            assert forall|t: int| 0 <= t < an implies ct@.auto_detection[t] == theme@
                .auto_detection.map_values(
                |e: (Seq<char>, AutoDetectionPatternView)| spec_compile_auto(e.0, e.1),
            )[t] by {
                assert(ct.auto_detection@[t]@ == spec_compile_auto(
                    theme@.auto_detection[t].0,
                    theme@.auto_detection[t].1,
                ));
            }
            assert(ct@.auto_detection =~= theme@.auto_detection.map_values(
                |e: (Seq<char>, AutoDetectionPatternView)| spec_compile_auto(e.0, e.1),
            ));
            assert forall|t: int| 0 <= t < fnum implies ct@.filters[t] == theme@
                .filters.map_values(
                |e: (Seq<char>, FilterView)| (e.0, spec_compile_filter(e.1)),
            )[t] by {
                assert(ct.filters@[t].0@ == theme.filters@[t].0@);
            }
            assert(ct@.filters =~= theme@.filters.map_values(
                |e: (Seq<char>, FilterView)| (e.0, spec_compile_filter(e.1)),
            ));
        }
        Ok(ct)
    }
}


impl CloneKeepView for CompiledIconMapping {
    fn clone_keep(&self) -> (r: Self)
        ensures
            r@ == self@,
    {
        CompiledIconMapping {
            icon: self.icon.clone(),
            color_ansi: self.color_ansi.clone(),
            formatted_template: self.formatted_template.clone(),
        }
    }
}

/// The pattern actually compiled for an auto-detection entry: a source
/// without any capture group is wrapped in one, so a uniform
/// first-capture-or-whole-match extraction applies at apply time.
pub open spec fn spec_capture_pattern(p: Seq<char>) -> Seq<char> {
    if !spec_contains_char(p, '(') {
        "("@ + p + ")"@
    } else {
        p
    }
}

/// An auto-detection entry after runtime initialization.
pub open spec fn spec_init_auto(v: CompiledAutoPatternView) -> CompiledAutoPatternView {
    CompiledAutoPatternView {
        name: v.name,
        pattern_str: v.pattern_str,
        runtime_pattern: Some(spec_capture_pattern(v.pattern_str)),
        ansi_style: v.ansi_style,
        icon: v.icon,
    }
}

/// A keyword pattern after runtime initialization.
pub open spec fn spec_init_kwp(v: CompiledKeywordPatternView) -> CompiledKeywordPatternView {
    CompiledKeywordPatternView {
        pattern_str: v.pattern_str,
        runtime_ready: true,
        ansi_style: v.ansi_style,
        keywords: v.keywords,
    }
}

/// A filter after runtime initialization: every keyword pattern ready and
/// the bulk-match pattern list filled in.
pub open spec fn spec_init_filter(f: CompiledFilterView) -> CompiledFilterView {
    CompiledFilterView {
        icon_mappings: f.icon_mappings,
        keyword_patterns: f.keyword_patterns.map_values(
            |k: CompiledKeywordPatternView| spec_init_kwp(k),
        ),
        pattern_set_str: f.keyword_patterns.map_values(
            |k: CompiledKeywordPatternView| k.pattern_str,
        ),
    }
}

/// A whole compiled theme after runtime initialization.
pub open spec fn spec_init_theme(t: CompiledThemeView) -> CompiledThemeView {
    CompiledThemeView {
        version: t.version,
        source_checksum: t.source_checksum,
        auto_detection: t.auto_detection.map_values(
            |v: CompiledAutoPatternView| spec_init_auto(v),
        ),
        filters: t.filters.map_values(
            |e: (Seq<char>, CompiledFilterView)| (e.0, spec_init_filter(e.1)),
        ),
    }
}

/// Whether the regex engine accepts every pattern of the compiled theme:
/// each capture-wrapped auto-detection pattern and each keyword group
/// alternation.
pub open spec fn spec_theme_compiles(t: CompiledThemeView) -> bool {
    (forall|i: int|
        0 <= i < t.auto_detection.len() ==> regex_compiles(
            spec_capture_pattern((#[trigger] t.auto_detection[i]).pattern_str),
        )) && (forall|fi: int, ki: int|
        0 <= fi < t.filters.len() && 0 <= ki < t.filters[fi].1.keyword_patterns.len()
            ==> regex_compiles((#[trigger] t.filters[fi].1.keyword_patterns[ki]).pattern_str))
}

/// One auto-detection pass per compiled entry from `i` on; entries whose
/// runtime pattern is not installed are skipped.
pub open spec fn spec_apply_autos(
    autos: Seq<CompiledAutoPatternView>,
    i: int,
    text: Seq<char>,
) -> Seq<char>
    decreases autos.len() - i,
    when 0 <= i <= autos.len()
{
    if i >= autos.len() {
        text
    } else {
        spec_apply_autos(
            autos,
            i + 1,
            match autos[i].runtime_pattern {
                Some(rp) => regex_rewritten(
                    rp,
                    text,
                    match autos[i].icon {
                        Some(ic) => ic + " "@ + autos[i].ansi_style,
                        None => autos[i].ansi_style,
                    },
                    "\x1b[0m"@,
                ),
                None => text,
            },
        )
    }
}

/// One keyword-group pass per compiled pattern from `i` on; patterns not
/// runtime-ready are skipped.
pub open spec fn spec_apply_keywords(
    kwps: Seq<CompiledKeywordPatternView>,
    i: int,
    text: Seq<char>,
) -> Seq<char>
    decreases kwps.len() - i,
    when 0 <= i <= kwps.len()
{
    if i >= kwps.len() {
        text
    } else {
        spec_apply_keywords(
            kwps,
            i + 1,
            if kwps[i].runtime_ready {
                regex_rewritten(kwps[i].pattern_str, text, kwps[i].ansi_style, "\x1b[0m"@)
            } else {
                text
            },
        )
    }
}

/// The compiled per-line transformation: auto-detection passes, then, if
/// the named filter exists, icon substitution and the keyword passes, in
/// that order.
pub open spec fn spec_process_text(
    ct: CompiledThemeView,
    text: Seq<char>,
    filter_name: Seq<char>,
) -> Seq<char> {
    let after_autos = spec_apply_autos(ct.auto_detection, 0, text);
    match spec_assoc_find(ct.filters, filter_name) {
        Some(f) => spec_apply_keywords(
            f.keyword_patterns,
            0,
            spec_icon_substitute(after_autos, f.icon_mappings, 0),
        ),
        None => after_autos,
    }
}

impl CompiledTheme {
    /// Installs the runtime patterns: wraps each auto-detection source in
    /// a capture group where it has none and checks every pattern against
    /// the regex engine. Succeeds exactly when every pattern compiles;
    /// on failure the compiled theme is left unchanged.
    pub fn init_runtime(&mut self) -> (r: Result<(), String>)
        ensures
            r is Ok <==> spec_theme_compiles(old(self)@),
            r is Ok ==> final(self)@ == spec_init_theme(old(self)@),
            r is Err ==> final(self)@ == old(self)@,
    {
        let an = self.auto_detection.len();
        let mut autos: Vec<CompiledAutoPattern> = Vec::new();
        let mut i: usize = 0;
        while i < an
            invariant
                self@ == old(self)@,
                an == self.auto_detection@.len(),
                i <= an,
                autos@.len() == i,
                forall|t: int|
                    0 <= t < i ==> (#[trigger] autos@[t])@ == spec_init_auto(
                        self@.auto_detection[t],
                    ),
                forall|t: int|
                    0 <= t < i ==> regex_compiles(
                        spec_capture_pattern((#[trigger] self@.auto_detection[t]).pattern_str),
                    ),
            decreases an - i,
        {
            let p = &self.auto_detection[i];
            proof {
                assert(self@.auto_detection[i as int] == p@);
            }
            let capture_pattern = if !contains_char(p.pattern_str.as_str(), '(') {
                let mut c = String::from_str("(");
                c.append(p.pattern_str.as_str());
                c.append(")");
                proof {
                    assert(c@ =~= spec_capture_pattern(p@.pattern_str));
                }
                c
            } else {
                p.pattern_str.clone()
            };
            if !regex_pattern_compiles(capture_pattern.as_str()) {
                proof {
                    assert(!regex_compiles(
                        spec_capture_pattern(self@.auto_detection[i as int].pattern_str),
                    ));
                }
                return Err(String::from_str("invalid auto-detection pattern"));
            }
            autos.push(
                CompiledAutoPattern {
                    name: p.name.clone(),
                    pattern_str: p.pattern_str.clone(),
                    runtime_pattern: Some(capture_pattern),
                    ansi_style: p.ansi_style.clone(),
                    icon: match &p.icon {
                        Some(s) => Some(s.clone()),
                        None => None,
                    },
                },
            );
            i = i + 1;
        }
        let fnum = self.filters.len();
        let mut filters: Vec<(String, CompiledFilter)> = Vec::new();
        let mut fi: usize = 0;
        while fi < fnum
            invariant
                self@ == old(self)@,
                an == self.auto_detection@.len(),
                autos@.len() == an,
                forall|t: int|
                    0 <= t < an ==> (#[trigger] autos@[t])@ == spec_init_auto(
                        self@.auto_detection[t],
                    ),
                forall|t: int|
                    0 <= t < an ==> regex_compiles(
                        spec_capture_pattern((#[trigger] self@.auto_detection[t]).pattern_str),
                    ),
                fnum == self.filters@.len(),
                fi <= fnum,
                filters@.len() == fi,
                forall|t: int|
                    0 <= t < fi ==> (#[trigger] filters@[t]).0@ == self.filters@[t].0@
                        && filters@[t].1@ == spec_init_filter(self@.filters[t].1),
                forall|t: int, ki: int|
                    0 <= t < fi && 0 <= ki < self@.filters[t].1.keyword_patterns.len()
                        ==> regex_compiles(
                        (#[trigger] self@.filters[t].1.keyword_patterns[ki]).pattern_str,
                    ),
            decreases fnum - fi,
        {
            let entry = &self.filters[fi];
            proof {
                assert(self@.filters[fi as int] == (entry.0@, entry.1@));
            }
            let kn = entry.1.keyword_patterns.len();
            let mut kwps: Vec<CompiledKeywordPattern> = Vec::new();
            let mut pattern_set: Vec<String> = Vec::new();
            let mut ki: usize = 0;
            while ki < kn
                invariant
                    self@ == old(self)@,
                    fnum == self.filters@.len(),
                    fi < fnum,
                    self@.filters[fi as int].1 == entry.1@,
                    kn == entry.1.keyword_patterns@.len(),
                    ki <= kn,
                    kwps@.len() == ki,
                    pattern_set@.len() == ki,
                    forall|t: int|
                        0 <= t < ki ==> (#[trigger] kwps@[t])@ == spec_init_kwp(
                            entry.1@.keyword_patterns[t],
                        ),
                    forall|t: int|
                        0 <= t < ki ==> (#[trigger] pattern_set@[t])@ == entry.1@
                            .keyword_patterns[t].pattern_str,
                    forall|t: int|
                        0 <= t < ki ==> regex_compiles(
                            (#[trigger] entry.1@.keyword_patterns[t]).pattern_str,
                        ),
                decreases kn - ki,
            {
                let kwp = &entry.1.keyword_patterns[ki];
                proof {
                    assert(entry.1@.keyword_patterns[ki as int] == kwp@);
                }
                if !regex_pattern_compiles(kwp.pattern_str.as_str()) {
                    proof {
                        assert(!regex_compiles(
                            self@.filters[fi as int].1.keyword_patterns[ki as int].pattern_str,
                        ));
                    }
                    return Err(String::from_str("invalid keyword pattern"));
                }
                kwps.push(
                    CompiledKeywordPattern {
                        pattern_str: kwp.pattern_str.clone(),
                        runtime_ready: true,
                        ansi_style: kwp.ansi_style.clone(),
                        keywords: clone_string_vec(&kwp.keywords),
                    },
                );
                pattern_set.push(kwp.pattern_str.clone());
                ki = ki + 1;
            }
            let cf = CompiledFilter {
                icon_mappings: clone_pair_vec(&entry.1.icon_mappings),
                keyword_patterns: kwps,
                pattern_set_str: pattern_set,
            };
            proof {
                assert forall|t: int| 0 <= t < kn implies cf@.keyword_patterns[t] == entry.1@
                    .keyword_patterns.map_values(
                    |k: CompiledKeywordPatternView| spec_init_kwp(k),
                )[t] by {
                    assert(cf.keyword_patterns@[t]@ == spec_init_kwp(
                        entry.1@.keyword_patterns[t],
                    ));
                }
                assert(cf@.keyword_patterns =~= entry.1@.keyword_patterns.map_values(
                    |k: CompiledKeywordPatternView| spec_init_kwp(k),
                ));
                assert forall|t: int| 0 <= t < kn implies cf@.pattern_set_str[t] == entry.1@
                    .keyword_patterns.map_values(
                    |k: CompiledKeywordPatternView| k.pattern_str,
                )[t] by {
                    assert(cf.pattern_set_str@[t]@ == entry.1@.keyword_patterns[t].pattern_str);
                }
                assert(cf@.pattern_set_str =~= entry.1@.keyword_patterns.map_values(
                    |k: CompiledKeywordPatternView| k.pattern_str,
                ));
                assert(cf@ == spec_init_filter(entry.1@));
            }
            filters.push((entry.0.clone(), cf));
            fi = fi + 1;
        }
        self.auto_detection = autos;
        self.filters = filters;
        proof {
            assert forall|t: int| 0 <= t < an implies self@.auto_detection[t] == old(
                self,
            )@.auto_detection.map_values(|v: CompiledAutoPatternView| spec_init_auto(v))[t] by {
                assert(self.auto_detection@[t]@ == spec_init_auto(old(self)@.auto_detection[t]));
            }
            assert(self@.auto_detection =~= old(self)@.auto_detection.map_values(
                |v: CompiledAutoPatternView| spec_init_auto(v),
            ));
            assert forall|t: int| 0 <= t < fnum implies self@.filters[t] == old(
                self,
            )@.filters.map_values(
                |e: (Seq<char>, CompiledFilterView)| (e.0, spec_init_filter(e.1)),
            )[t] by {
                assert(self.filters@[t].0@ == old(self).filters@[t].0@);
            }
            assert(self@.filters =~= old(self)@.filters.map_values(
                |e: (Seq<char>, CompiledFilterView)| (e.0, spec_init_filter(e.1)),
            ));
        }
        Ok(())
    }

    /// The compiled per-line transformation: every auto-detection pass,
    /// then, under the named filter, icon substitution and every keyword
    /// pass.
    pub fn process_text(&self, text: &str, filter_name: &str) -> (r: String)
        ensures
            r@ == spec_process_text(self@, text@, filter_name@),
    {
        let mut result = String::from_str(text);
        let an = self.auto_detection.len();
        let mut i: usize = 0;
        while i < an
            invariant
                an == self.auto_detection@.len(),
                i <= an,
                spec_apply_autos(self@.auto_detection, i as int, result@) == spec_apply_autos(
                    self@.auto_detection,
                    0,
                    text@,
                ),
            decreases an - i,
        {
            let pattern = &self.auto_detection[i];
            proof {
                assert(self@.auto_detection[i as int] == pattern@);
            }
            match &pattern.runtime_pattern {
                Some(rp) => {
                    let pre = match &pattern.icon {
                        Some(ic) => {
                            let mut p = ic.clone();
                            p.append(" ");
                            p.append(pattern.ansi_style.as_str());
                            p
                        },
                        None => pattern.ansi_style.clone(),
                    };
                    result = regex_rewrite(rp.as_str(), result.as_str(), pre.as_str(), "\x1b[0m");
                },
                None => {},
            }
            i = i + 1;
        }
        let filter = match assoc_find(&self.filters, &String::from_str(filter_name)) {
            Some(f) => f,
            None => {
                return result;
            },
        };
        let chars = chars_of(result.as_str());
        let substituted = icon_substitute(&chars, &filter.icon_mappings);
        result = string_from_chars(&substituted);
        let kn = filter.keyword_patterns.len();
        let ghost kwpsv = filter@.keyword_patterns;
        let ghost after_icons = result@;
        let mut k: usize = 0;
        while k < kn
            invariant
                kn == filter.keyword_patterns@.len(),
                kwpsv == filter@.keyword_patterns,
                k <= kn,
                spec_apply_keywords(kwpsv, k as int, result@) == spec_apply_keywords(
                    kwpsv,
                    0,
                    after_icons,
                ),
            decreases kn - k,
        {
            let kwp = &filter.keyword_patterns[k];
            proof {
                assert(kwpsv[k as int] == kwp@);
            }
            if kwp.runtime_ready {
                result = regex_rewrite(
                    kwp.pattern_str.as_str(),
                    result.as_str(),
                    kwp.ansi_style.as_str(),
                    "\x1b[0m",
                );
            }
            k = k + 1;
        }
        result
    }
}


/// Checksum stability: compiling one theme any number of times yields the
/// same checksum, since the checksum is a function of the theme's view
/// alone. Whether a change to a field changes the checksum is a property
/// of the hash and is exercised by tests, not proved.
pub proof fn lemma_checksum_stable(a: CompiledThemeView, b: CompiledThemeView, t: ThemeView)
    requires
        a == spec_compile_theme(t),
        b == spec_compile_theme(t),
    ensures
        a.source_checksum == b.source_checksum,
        a.source_checksum == spec_theme_checksum(t),
{
}


/// Looking a filter up in an initialized compiled theme finds exactly the
/// initialized, compiled form of the theme's own filter of that name.
pub proof fn lemma_compiled_filter_lookup(t: ThemeView, fname: Seq<char>)
    ensures
        match spec_assoc_find(t.filters, fname) {
            Some(f) => spec_assoc_find(
                spec_init_theme(spec_compile_theme(t)).filters,
                fname,
            ) == Some(spec_init_filter(spec_compile_filter(f))),
            None => spec_assoc_find(spec_init_theme(spec_compile_theme(t)).filters, fname) is None,
        },
{
    let compiled = spec_compile_theme(t).filters;
    crate::theme::lemma_assoc_find_map(
        t.filters,
        |f: FilterView| spec_compile_filter(f),
        fname,
    );
    assert(compiled =~= t.filters.map_values(
        |e: (Seq<char>, FilterView)| (e.0, (|f: FilterView| spec_compile_filter(f))(e.1)),
    ));
    crate::theme::lemma_assoc_find_map(
        compiled,
        |f: CompiledFilterView| spec_init_filter(f),
        fname,
    );
    assert(spec_init_theme(spec_compile_theme(t)).filters =~= compiled.map_values(
        |e: (Seq<char>, CompiledFilterView)| (
            e.0,
            (|f: CompiledFilterView| spec_init_filter(f))(e.1),
        ),
    ));
}

/// Compiled-versus-legacy equivalence, icon stage: under one theme and
/// filter name, both paths substitute `:word:` spans identically on any
/// line, because the compiled theme's icon table is exactly the compiled
/// form of the theme's own table. The auto-detection and keyword stages
/// run through the regex engine, whose matching is not modeled here;
/// their agreement is exercised by tests.
pub proof fn lemma_icon_stage_agreement(t: ThemeView, fname: Seq<char>, line: Seq<char>)
    ensures
        match spec_assoc_find(t.filters, fname) {
            Some(f) => {
                let ct = spec_init_theme(spec_compile_theme(t));
                spec_assoc_find(ct.filters, fname) is Some && spec_icon_substitute(
                    line,
                    (spec_assoc_find(ct.filters, fname)->0).icon_mappings,
                    0,
                ) == spec_icon_substitute(line, spec_compiled_icon_assoc(f.icon_mappings), 0)
            },
            None => spec_assoc_find(spec_init_theme(spec_compile_theme(t)).filters, fname) is None,
        },
{
    lemma_compiled_filter_lookup(t, fname);
}

} // verus!
