//! Theme model.
//!
//! In-memory representation of a theme: metadata, auto-detection patterns,
//! and named filters bundling icon mappings and keyword style groups, with
//! a two-level inheritance merge (defaults plus overrides).
//!
//! Name-keyed collections are association vectors of `(name, value)` pairs
//! looked up by first match; their iteration order is the insertion order,
//! which keeps every derived artifact (compilation, checksums) reproducible.
//! Each type carries a mathematical view (`@`) over which every contract is
//! stated.

use vstd::prelude::*;
use vstd::string::StringExecFns;
use crate::extended_colors::get_extended_color_code;
use crate::extended_colors::spec_color_code;

verus! {

/// Theme metadata: name, version, free-form description.
pub struct ThemeMetadata {
    pub name: String,
    pub version: String,
    pub description: String,
}

/// The view of [`ThemeMetadata`].
pub struct ThemeMetadataView {
    pub name: Seq<char>,
    pub version: Seq<char>,
    pub description: Seq<char>,
}

impl View for ThemeMetadata {
    type V = ThemeMetadataView;

    open spec fn view(&self) -> ThemeMetadataView {
        ThemeMetadataView {
            name: self.name@,
            version: self.version@,
            description: self.description@,
        }
    }
}

/// A theme-declared auto-detection entry: a regular-expression source, a
/// color name, and style flags.
pub struct AutoDetectionPattern {
    pub pattern: String,
    pub color: String,
    pub bold: bool,
    pub italic: bool,
    pub underline: bool,
    pub dim: bool,
    pub strikethrough: bool,
}

/// The view of [`AutoDetectionPattern`].
pub struct AutoDetectionPatternView {
    pub pattern: Seq<char>,
    pub color: Seq<char>,
    pub bold: bool,
    pub italic: bool,
    pub underline: bool,
    pub dim: bool,
    pub strikethrough: bool,
}

impl View for AutoDetectionPattern {
    type V = AutoDetectionPatternView;

    open spec fn view(&self) -> AutoDetectionPatternView {
        AutoDetectionPatternView {
            pattern: self.pattern@,
            color: self.color@,
            bold: self.bold,
            italic: self.italic,
            underline: self.underline,
            dim: self.dim,
            strikethrough: self.strikethrough,
        }
    }
}

/// An icon mapping: the glyph and the color its word is rendered in.
pub struct IconMapping {
    pub icon: String,
    pub color: String,
}

/// The view of [`IconMapping`].
pub struct IconMappingView {
    pub icon: Seq<char>,
    pub color: Seq<char>,
}

impl View for IconMapping {
    type V = IconMappingView;

    open spec fn view(&self) -> IconMappingView {
        IconMappingView { icon: self.icon@, color: self.color@ }
    }
}

/// The view of an association vector: each `(name, value)` pair as the
/// name's characters and the value's view.
pub open spec fn spec_pair_assoc<T: View>(v: Seq<(String, T)>) -> Seq<(Seq<char>, T::V)> {
    v.map_values(|p: (String, T)| (p.0@, p.1@))
}

/// A set of keywords sharing one style.
pub struct StyleGroup {
    pub keywords: Vec<String>,
    pub color: String,
    pub bold: bool,
    pub italic: bool,
    pub underline: bool,
    pub dim: bool,
    pub strikethrough: bool,
}

/// The view of [`StyleGroup`].
pub struct StyleGroupView {
    pub keywords: Seq<Seq<char>>,
    pub color: Seq<char>,
    pub bold: bool,
    pub italic: bool,
    pub underline: bool,
    pub dim: bool,
    pub strikethrough: bool,
}

impl View for StyleGroup {
    type V = StyleGroupView;

    open spec fn view(&self) -> StyleGroupView {
        StyleGroupView {
            keywords: self.keywords.deep_view(),
            color: self.color@,
            bold: self.bold,
            italic: self.italic,
            underline: self.underline,
            dim: self.dim,
            strikethrough: self.strikethrough,
        }
    }
}

/// A named bundle of icon mappings and keyword style groups.
pub struct Filter {
    pub icon_mappings: Vec<(String, IconMapping)>,
    pub styles: Vec<(String, StyleGroup)>,
}

/// The view of [`Filter`].
pub struct FilterView {
    pub icon_mappings: Seq<(Seq<char>, IconMappingView)>,
    pub styles: Seq<(Seq<char>, StyleGroupView)>,
}

impl View for Filter {
    type V = FilterView;

    open spec fn view(&self) -> FilterView {
        FilterView {
            icon_mappings: spec_pair_assoc(self.icon_mappings@),
            styles: spec_pair_assoc(self.styles@),
        }
    }
}

/// Hints for the theme compiler carried by a theme document.
pub struct CompilationSettings {
    pub optimize_for: String,
    pub pattern_limit: usize,
    pub enable_fast_lookup: bool,
}

/// The view of [`CompilationSettings`].
pub struct CompilationSettingsView {
    pub optimize_for: Seq<char>,
    pub pattern_limit: int,
    pub enable_fast_lookup: bool,
}

impl View for CompilationSettings {
    type V = CompilationSettingsView;

    open spec fn view(&self) -> CompilationSettingsView {
        CompilationSettingsView {
            optimize_for: self.optimize_for@,
            pattern_limit: self.pattern_limit as int,
            enable_fast_lookup: self.enable_fast_lookup,
        }
    }
}

/// The defaults block a theme may inherit from.
pub struct ThemeDefaults {
    pub auto_detection: Vec<(String, AutoDetectionPattern)>,
    pub filters: Vec<(String, Filter)>,
}

/// The view of [`ThemeDefaults`].
pub struct ThemeDefaultsView {
    pub auto_detection: Seq<(Seq<char>, AutoDetectionPatternView)>,
    pub filters: Seq<(Seq<char>, FilterView)>,
}

impl View for ThemeDefaults {
    type V = ThemeDefaultsView;

    open spec fn view(&self) -> ThemeDefaultsView {
        ThemeDefaultsView {
            auto_detection: spec_pair_assoc(self.auto_detection@),
            filters: spec_pair_assoc(self.filters@),
        }
    }
}

/// A theme: metadata, an optional defaults block, auto-detection overrides,
/// and named filters.
pub struct Theme {
    pub metadata: ThemeMetadata,
    pub defaults: Option<ThemeDefaults>,
    pub auto_detection: Vec<(String, AutoDetectionPattern)>,
    pub compilation: Option<CompilationSettings>,
    pub filters: Vec<(String, Filter)>,
}

/// The view of [`Theme`].
pub struct ThemeView {
    pub metadata: ThemeMetadataView,
    pub defaults: Option<ThemeDefaultsView>,
    pub auto_detection: Seq<(Seq<char>, AutoDetectionPatternView)>,
    pub compilation: Option<CompilationSettingsView>,
    pub filters: Seq<(Seq<char>, FilterView)>,
}

impl View for Theme {
    type V = ThemeView;

    open spec fn view(&self) -> ThemeView {
        ThemeView {
            metadata: self.metadata@,
            defaults: match self.defaults {
                Some(d) => Some(d@),
                None => None,
            },
            auto_detection: spec_pair_assoc(self.auto_detection@),
            compilation: match self.compilation {
                Some(c) => Some(c@),
                None => None,
            },
            filters: spec_pair_assoc(self.filters@),
        }
    }
}

/// A value that may be replaced by the literal string `none` to disable
/// inheritance.
pub enum InheritanceValue<T> {
    Value(T),
    Disabled(String),
}

impl<T> InheritanceValue<T> {
    /// Whether this entry disables inheritance.
    pub fn is_disabled(&self) -> (r: bool)
        ensures
            r == (self matches InheritanceValue::Disabled(s) && s@ == "none"@),
    {
        match self {
            InheritanceValue::Disabled(s) => *s == String::from_str("none"),
            _ => false,
        }
    }

    /// The carried value, if any.
    pub fn value(&self) -> (r: Option<&T>)
        ensures
            match r {
                Some(v) => self matches InheritanceValue::Value(w) && w == *v,
                None => !(self matches InheritanceValue::Value(_)),
            },
    {
        match self {
            InheritanceValue::Value(v) => Some(v),
            _ => None,
        }
    }
}

/// First-match lookup in an association sequence.
pub open spec fn spec_assoc_find<V>(m: Seq<(Seq<char>, V)>, key: Seq<char>) -> Option<V>
    decreases m.len(),
{
    if m.len() == 0 {
        None
    } else if m[0].0 == key {
        Some(m[0].1)
    } else {
        spec_assoc_find(m.drop_first(), key)
    }
}

/// Appending a pair changes a lookup only where no earlier pair matched.
pub proof fn lemma_assoc_find_push<V>(m: Seq<(Seq<char>, V)>, p: (Seq<char>, V), key: Seq<char>)
    ensures
        spec_assoc_find(m.push(p), key) == if spec_assoc_find(m, key) is Some {
            spec_assoc_find(m, key)
        } else if p.0 == key {
            Some(p.1)
        } else {
            None
        },
    decreases m.len(),
{
    assert(m.push(p).len() == m.len() + 1);
    if m.len() == 0 {
        assert(m.push(p)[0] == p);
        assert(m.push(p).drop_first() =~= Seq::<(Seq<char>, V)>::empty());
    } else {
        assert(m.push(p)[0] == m[0]);
        assert(m.push(p).drop_first() =~= m.drop_first().push(p));
        lemma_assoc_find_push(m.drop_first(), p, key);
        assert(spec_assoc_find(m.push(p), key) == if m.push(p)[0].0 == key {
            Some(m.push(p)[0].1)
        } else {
            spec_assoc_find(m.push(p).drop_first(), key)
        });
        assert(spec_assoc_find(m.push(p).drop_first(), key) == spec_assoc_find(
            m.drop_first().push(p),
            key,
        ));
        assert(spec_assoc_find(m, key) == if m[0].0 == key {
            Some(m[0].1)
        } else {
            spec_assoc_find(m.drop_first(), key)
        });
    }
}

/// First-match lookup commutes with mapping a function over the values.
pub proof fn lemma_assoc_find_map<V, W>(m: Seq<(Seq<char>, V)>, f: spec_fn(V) -> W, k: Seq<char>)
    ensures
        spec_assoc_find(m.map_values(|e: (Seq<char>, V)| (e.0, f(e.1))), k) == match spec_assoc_find(
            m,
            k,
        ) {
            Some(v) => Some(f(v)),
            None => None::<W>,
        },
    decreases m.len(),
{
    let mm = m.map_values(|e: (Seq<char>, V)| (e.0, f(e.1)));
    if m.len() > 0 {
        assert(mm[0] == (m[0].0, f(m[0].1)));
        if m[0].0 != k {
            lemma_assoc_find_map(m.drop_first(), f, k);
            assert(mm.drop_first() =~= m.drop_first().map_values(
                |e: (Seq<char>, V)| (e.0, f(e.1)),
            ));
        }
    }
}

/// Appending a pair to an association vector appends its view.
pub proof fn lemma_pair_assoc_push<T: View>(v: Seq<(String, T)>, p: (String, T))
    ensures
        spec_pair_assoc(v.push(p)) == spec_pair_assoc(v).push((p.0@, p.1@)),
{
    assert(spec_pair_assoc(v.push(p)) =~= spec_pair_assoc(v).push((p.0@, p.1@)));
}

/// First-match lookup in an association vector.
pub fn assoc_find<'a, T: View>(m: &'a Vec<(String, T)>, key: &String) -> (r: Option<&'a T>)
    ensures
        match r {
            Some(v) => spec_assoc_find(spec_pair_assoc(m@), key@) == Some(v@),
            None => spec_assoc_find(spec_pair_assoc(m@), key@) is None,
        },
{
    let ghost mv = spec_pair_assoc(m@);
    let n = m.len();
    proof {
        assert(mv.subrange(0, n as int) =~= mv);
    }
    let mut i: usize = 0;
    while i < n
        invariant
            n == m@.len(),
            i <= n,
            mv == spec_pair_assoc(m@),
            spec_assoc_find(mv, key@) == spec_assoc_find(
                mv.subrange(i as int, n as int),
                key@,
            ),
        decreases n - i,
    {
        proof {
            assert(mv.subrange(i as int, n as int).drop_first() =~= mv.subrange(i + 1, n as int));
        }
        if m[i].0 == *key {
            return Some(&m[i].1);
        }
        i = i + 1;
    }
    None
}

/// Cloning that provably keeps a value's view.
pub trait CloneKeepView: View + Sized {
    /// Clones the value; the clone has the same view.
    fn clone_keep(&self) -> (r: Self)
        ensures
            r@ == self@,
    ;
}

impl CloneKeepView for IconMapping {
    fn clone_keep(&self) -> (r: Self)
        ensures
            r@ == self@,
    {
        IconMapping { icon: self.icon.clone(), color: self.color.clone() }
    }
}

impl CloneKeepView for AutoDetectionPattern {
    fn clone_keep(&self) -> (r: Self)
        ensures
            r@ == self@,
    {
        AutoDetectionPattern {
            pattern: self.pattern.clone(),
            color: self.color.clone(),
            bold: self.bold,
            italic: self.italic,
            underline: self.underline,
            dim: self.dim,
            strikethrough: self.strikethrough,
        }
    }
}

/// Clones a vector of strings, keeping its contents.
pub(crate) fn clone_string_vec(v: &Vec<String>) -> (r: Vec<String>)
    ensures
        r.deep_view() == v.deep_view(),
{
    let n = v.len();
    let mut r: Vec<String> = Vec::new();
    let mut i: usize = 0;
    while i < n
        invariant
            n == v@.len(),
            i <= n,
            r@.len() == i,
            forall|t: int| 0 <= t < i ==> (#[trigger] r@[t])@ == v@[t]@,
        decreases n - i,
    {
        r.push(v[i].clone());
        i = i + 1;
    }
    proof {
        assert forall|t: int| 0 <= t < n implies r.deep_view()[t] == v.deep_view()[t] by {
            assert(r@[t]@ == v@[t]@);
        }
        assert(r.deep_view() =~= v.deep_view());
    }
    r
}

impl CloneKeepView for StyleGroup {
    fn clone_keep(&self) -> (r: Self)
        ensures
            r@ == self@,
    {
        StyleGroup {
            keywords: clone_string_vec(&self.keywords),
            color: self.color.clone(),
            bold: self.bold,
            italic: self.italic,
            underline: self.underline,
            dim: self.dim,
            strikethrough: self.strikethrough,
        }
    }
}

/// Clones an association vector, keeping its view.
pub(crate) fn clone_pair_vec<T: CloneKeepView>(v: &Vec<(String, T)>) -> (r: Vec<(String, T)>)
    ensures
        spec_pair_assoc(r@) == spec_pair_assoc(v@),
{
    let n = v.len();
    let mut r: Vec<(String, T)> = Vec::new();
    let mut i: usize = 0;
    while i < n
        invariant
            n == v@.len(),
            i <= n,
            r@.len() == i,
            forall|t: int|
                0 <= t < i ==> (#[trigger] r@[t]).0@ == v@[t].0@ && r@[t].1@ == v@[t].1@,
        decreases n - i,
    {
        let pair = &v[i];
        r.push((pair.0.clone(), pair.1.clone_keep()));
        i = i + 1;
    }
    proof {
        assert forall|t: int| 0 <= t < n implies spec_pair_assoc(r@)[t] == spec_pair_assoc(
            v@,
        )[t] by {
            assert(r@[t].0@ == v@[t].0@ && r@[t].1@ == v@[t].1@);
        }
        assert(spec_pair_assoc(r@) =~= spec_pair_assoc(v@));
    }
    r
}

impl CloneKeepView for Filter {
    fn clone_keep(&self) -> (r: Self)
        ensures
            r@ == self@,
    {
        Filter {
            icon_mappings: clone_pair_vec(&self.icon_mappings),
            styles: clone_pair_vec(&self.styles),
        }
    }
}

impl CloneKeepView for ThemeDefaults {
    fn clone_keep(&self) -> (r: Self)
        ensures
            r@ == self@,
    {
        ThemeDefaults {
            auto_detection: clone_pair_vec(&self.auto_detection),
            filters: clone_pair_vec(&self.filters),
        }
    }
}

impl Clone for IconMapping {
    /// Clones the mapping, keeping its view.
    fn clone(&self) -> (r: Self)
        ensures
            r@ == self@,
    {
        self.clone_keep()
    }
}

impl Clone for AutoDetectionPattern {
    /// Clones the pattern, keeping its view.
    fn clone(&self) -> (r: Self)
        ensures
            r@ == self@,
    {
        self.clone_keep()
    }
}

impl Clone for StyleGroup {
    /// Clones the group, keeping its view.
    fn clone(&self) -> (r: Self)
        ensures
            r@ == self@,
    {
        self.clone_keep()
    }
}

impl Clone for Filter {
    /// Clones the filter, keeping its view.
    fn clone(&self) -> (r: Self)
        ensures
            r@ == self@,
    {
        self.clone_keep()
    }
}

impl Clone for ThemeDefaults {
    /// Clones the defaults block, keeping its view.
    fn clone(&self) -> (r: Self)
        ensures
            r@ == self@,
    {
        self.clone_keep()
    }
}

/// ANSI style codes shared by every renderer in the crate.
pub struct AnsiCodes;

impl AnsiCodes {
    /// The SGR reset sequence.
    pub fn reset() -> (r: String)
        ensures
            r@ == "\x1b[0m"@,
    {
        String::from_str("\x1b[0m")
    }

    /// The SGR bold sequence.
    pub fn bold() -> (r: String)
        ensures
            r@ == "\x1b[1m"@,
    {
        String::from_str("\x1b[1m")
    }

    /// The SGR dim sequence.
    pub fn dim() -> (r: String)
        ensures
            r@ == "\x1b[2m"@,
    {
        String::from_str("\x1b[2m")
    }

    /// The SGR italic sequence.
    pub fn italic() -> (r: String)
        ensures
            r@ == "\x1b[3m"@,
    {
        String::from_str("\x1b[3m")
    }

    /// The SGR underline sequence.
    pub fn underline() -> (r: String)
        ensures
            r@ == "\x1b[4m"@,
    {
        String::from_str("\x1b[4m")
    }

    /// The SGR strikethrough sequence.
    pub fn strikethrough() -> (r: String)
        ensures
            r@ == "\x1b[9m"@,
    {
        String::from_str("\x1b[9m")
    }
}

/// The escape-sequence prefix a color name and style flags render to:
/// color first, then the flags in a fixed order.
pub open spec fn spec_style_ansi(
    color: Seq<char>,
    bold: bool,
    dim: bool,
    italic: bool,
    underline: bool,
    strikethrough: bool,
) -> Seq<char> {
    spec_color_code(color) + (if bold {
        "\x1b[1m"@
    } else {
        Seq::<char>::empty()
    }) + (if dim {
        "\x1b[2m"@
    } else {
        Seq::<char>::empty()
    }) + (if italic {
        "\x1b[3m"@
    } else {
        Seq::<char>::empty()
    }) + (if underline {
        "\x1b[4m"@
    } else {
        Seq::<char>::empty()
    }) + (if strikethrough {
        "\x1b[9m"@
    } else {
        Seq::<char>::empty()
    })
}

/// The escape prefix of a style group's view.
pub open spec fn spec_group_ansi(g: StyleGroupView) -> Seq<char> {
    spec_style_ansi(g.color, g.bold, g.dim, g.italic, g.underline, g.strikethrough)
}

/// The escape prefix of an auto-detection pattern's view.
pub open spec fn spec_auto_ansi(p: AutoDetectionPatternView) -> Seq<char> {
    spec_style_ansi(p.color, p.bold, p.dim, p.italic, p.underline, p.strikethrough)
}

impl StyleGroup {
    /// Renders the group's color and flags to an ANSI escape prefix.
    pub fn to_ansi(&self) -> (r: String)
        ensures
            r@ == spec_group_ansi(self@),
    {
        let mut ansi = get_extended_color_code(self.color.as_str());
        if self.bold {
            ansi.append("\x1b[1m");
        }
        if self.dim {
            ansi.append("\x1b[2m");
        }
        if self.italic {
            ansi.append("\x1b[3m");
        }
        if self.underline {
            ansi.append("\x1b[4m");
        }
        if self.strikethrough {
            ansi.append("\x1b[9m");
        }
        ansi
    }
}

impl AutoDetectionPattern {
    /// Renders the pattern's color and flags to an ANSI escape prefix.
    pub fn to_ansi(&self) -> (r: String)
        ensures
            r@ == spec_auto_ansi(self@),
    {
        let mut ansi = get_extended_color_code(self.color.as_str());
        if self.bold {
            ansi.append("\x1b[1m");
        }
        if self.dim {
            ansi.append("\x1b[2m");
        }
        if self.italic {
            ansi.append("\x1b[3m");
        }
        if self.underline {
            ansi.append("\x1b[4m");
        }
        if self.strikethrough {
            ansi.append("\x1b[9m");
        }
        ansi
    }
}

/// The substitution an icon mapping renders a word to: icon, space, color,
/// word, reset.
pub open spec fn spec_formatted_icon(m: IconMappingView, word: Seq<char>) -> Seq<char> {
    m.icon + " "@ + spec_color_code(m.color) + word + "\x1b[0m"@
}

impl IconMapping {
    /// Formats the icon and colored word for a matched `:word:` span. The
    /// icon stays outside the color codes.
    pub fn formatted_icon(&self, word: &str) -> (r: String)
        ensures
            r@ == spec_formatted_icon(self@, word@),
    {
        let mut r = self.icon.clone();
        r.append(" ");
        let code = get_extended_color_code(self.color.as_str());
        r.append(code.as_str());
        r.append(word);
        r.append("\x1b[0m");
        r
    }
}


/// At key `k`, `merged` answers as `own` where `own` answers, and as `defs`
/// elsewhere.
pub open spec fn spec_assoc_merged_at<V>(
    merged: Seq<(Seq<char>, V)>,
    own: Seq<(Seq<char>, V)>,
    defs: Seq<(Seq<char>, V)>,
    k: Seq<char>,
) -> bool {
    spec_assoc_find(merged, k) == if spec_assoc_find(own, k) is Some {
        spec_assoc_find(own, k)
    } else {
        spec_assoc_find(defs, k)
    }
}

/// `merged` is the inheritance merge of `own` over `defs`: user-declared
/// entries win at the same key, keys only in `defs` appear in the result.
pub open spec fn spec_assoc_merged<V>(
    merged: Seq<(Seq<char>, V)>,
    own: Seq<(Seq<char>, V)>,
    defs: Seq<(Seq<char>, V)>,
) -> bool {
    forall|k: Seq<char>| #[trigger] spec_assoc_merged_at(merged, own, defs, k)
}

/// Builds the inheritance merge of `own` over `defs`: all of `own` in
/// order, then the entries of `defs` whose keys `own` lacks.
fn merge_pair_defaults<T: CloneKeepView>(own: &Vec<(String, T)>, defs: &Vec<(String, T)>) -> (r:
    Vec<(String, T)>)
    ensures
        spec_assoc_merged(spec_pair_assoc(r@), spec_pair_assoc(own@), spec_pair_assoc(defs@)),
{
    let ghost ownv = spec_pair_assoc(own@);
    let ghost defsv = spec_pair_assoc(defs@);
    let mut r = clone_pair_vec(own);
    let dn = defs.len();
    proof {
        assert forall|k: Seq<char>| #[trigger] spec_assoc_merged_at(
            spec_pair_assoc(r@),
            ownv,
            defsv.subrange(0, 0),
            k,
        ) by {
            assert(defsv.subrange(0, 0) =~= Seq::<(Seq<char>, T::V)>::empty());
        }
    }
    let mut j: usize = 0;
    while j < dn
        invariant
            dn == defs@.len(),
            j <= dn,
            ownv == spec_pair_assoc(own@),
            defsv == spec_pair_assoc(defs@),
            forall|k: Seq<char>| #[trigger] spec_assoc_merged_at(
                spec_pair_assoc(r@),
                ownv,
                defsv.subrange(0, j as int),
                k,
            ),
        decreases dn - j,
    {
        let ghost prev = spec_pair_assoc(r@);
        let key = &defs[j].0;
        let found = assoc_find(&r, key).is_some();
        if !found {
            let pair = &defs[j];
            r.push((pair.0.clone(), pair.1.clone_keep()));
            proof {
                assert(spec_pair_assoc(r@) =~= prev.push((defs@[j as int].0@, defs@[
                    j as int].1@)));
            }
        }
        proof {
            let dpair = (defs@[j as int].0@, defs@[j as int].1@);
            assert(defsv[j as int] == dpair);
            assert(defsv.subrange(0, j + 1) =~= defsv.subrange(0, j as int).push(dpair));
            assert forall|k: Seq<char>| #[trigger] spec_assoc_merged_at(
                spec_pair_assoc(r@),
                ownv,
                defsv.subrange(0, j + 1),
                k,
            ) by {
                assert(spec_assoc_merged_at(prev, ownv, defsv.subrange(0, j as int), k));
                lemma_assoc_find_push(defsv.subrange(0, j as int), dpair, k);
                if !found {
                    lemma_assoc_find_push(prev, dpair, k);
                }
            }
        }
        j = j + 1;
    }
    proof {
        assert(defsv.subrange(0, dn as int) =~= defsv);
        assert forall|k: Seq<char>| #[trigger] spec_assoc_merged_at(
            spec_pair_assoc(r@),
            ownv,
            defsv,
            k,
        ) by {
            assert(spec_assoc_merged_at(
                spec_pair_assoc(r@),
                ownv,
                defsv.subrange(0, dn as int),
                k,
            ));
        }
    }
    r
}

/// A merged filter: both of its association vectors are inheritance merges
/// of the user's filter over the defaults' filter.
pub open spec fn spec_filter_merged(m: FilterView, own: FilterView, defs: FilterView) -> bool {
    spec_assoc_merged(m.icon_mappings, own.icon_mappings, defs.icon_mappings)
        && spec_assoc_merged(m.styles, own.styles, defs.styles)
}

/// The relation between a merged filter entry, the user's entry, and what
/// the defaults hold at the same name.
pub open spec fn spec_filter_entry_merged(
    mval: FilterView,
    oval: FilterView,
    dopt: Option<FilterView>,
) -> bool {
    match dopt {
        Some(d) => spec_filter_merged(mval, oval, d),
        None => mval == oval,
    }
}

/// At key `k`, the merged filter table answers with the user's filter
/// (merged over the defaults' filter of the same name where one exists),
/// and with the defaults' filter where the user has none.
pub open spec fn spec_filters_merged_at(
    merged: Seq<(Seq<char>, FilterView)>,
    own: Seq<(Seq<char>, FilterView)>,
    defs: Seq<(Seq<char>, FilterView)>,
    k: Seq<char>,
) -> bool {
    match spec_assoc_find(own, k) {
        Some(f) => spec_assoc_find(merged, k) is Some && spec_filter_entry_merged(
            spec_assoc_find(merged, k)->0,
            f,
            spec_assoc_find(defs, k),
        ),
        None => spec_assoc_find(merged, k) == spec_assoc_find(defs, k),
    }
}

/// The whole filter table is an inheritance merge.
pub open spec fn spec_filters_merged(
    merged: Seq<(Seq<char>, FilterView)>,
    own: Seq<(Seq<char>, FilterView)>,
    defs: Seq<(Seq<char>, FilterView)>,
) -> bool {
    forall|k: Seq<char>| #[trigger] spec_filters_merged_at(merged, own, defs, k)
}

/// Merges one filter with its defaults: icon mappings and styles each get
/// the inheritance merge.
fn merge_filter(own: &Filter, defs: &Filter) -> (r: Filter)
    ensures
        spec_filter_merged(r@, own@, defs@),
{
    Filter {
        icon_mappings: merge_pair_defaults(&own.icon_mappings, &defs.icon_mappings),
        styles: merge_pair_defaults(&own.styles, &defs.styles),
    }
}

/// Conveys first-match lookups from pointwise-corresponding tables: the
/// rebuilt table has the same keys in the same order as `own`, each value
/// standing in the entry relation to the user's value and the defaults'
/// lookup of that key.
proof fn lemma_rebuilt_filters_find(
    mv: Seq<(Seq<char>, FilterView)>,
    ov: Seq<(Seq<char>, FilterView)>,
    dv: Seq<(Seq<char>, FilterView)>,
    k: Seq<char>,
)
    requires
        mv.len() == ov.len(),
        forall|t: int|
            0 <= t < ov.len() ==> (#[trigger] mv[t]).0 == ov[t].0 && spec_filter_entry_merged(
                mv[t].1,
                ov[t].1,
                spec_assoc_find(dv, ov[t].0),
            ),
    ensures
        match spec_assoc_find(ov, k) {
            Some(f) => spec_assoc_find(mv, k) is Some && spec_filter_entry_merged(
                spec_assoc_find(mv, k)->0,
                f,
                spec_assoc_find(dv, k),
            ),
            None => spec_assoc_find(mv, k) is None,
        },
    decreases ov.len(),
{
    if ov.len() > 0 {
        assert(mv[0].0 == ov[0].0 && spec_filter_entry_merged(
            mv[0].1,
            ov[0].1,
            spec_assoc_find(dv, ov[0].0),
        ));
        if ov[0].0 != k {
            assert forall|t: int|
                0 <= t < ov.drop_first().len() implies (#[trigger] mv.drop_first()[t]).0
                == ov.drop_first()[t].0 && spec_filter_entry_merged(
                mv.drop_first()[t].1,
                ov.drop_first()[t].1,
                spec_assoc_find(dv, ov.drop_first()[t].0),
            ) by {
                assert(mv[t + 1].0 == ov[t + 1].0 && spec_filter_entry_merged(
                    mv[t + 1].1,
                    ov[t + 1].1,
                    spec_assoc_find(dv, ov[t + 1].0),
                ));
            }
            lemma_rebuilt_filters_find(mv.drop_first(), ov.drop_first(), dv, k);
        }
    }
}

impl Theme {
    /// Applies theme inheritance: entries of the defaults block are merged
    /// beneath the theme's own entries. User-declared entries always win at
    /// the same key; every key present only in the defaults appears in the
    /// result. Without a defaults block nothing changes.
    pub fn apply_inheritance(&mut self)
        ensures
            final(self)@.metadata == old(self)@.metadata,
            final(self)@.compilation == old(self)@.compilation,
            final(self)@.defaults == old(self)@.defaults,
            old(self)@.defaults is None ==> final(self)@ == old(self)@,
            match old(self)@.defaults {
                Some(d) => spec_assoc_merged(
                    final(self)@.auto_detection,
                    old(self)@.auto_detection,
                    d.auto_detection,
                ) && spec_filters_merged(final(self)@.filters, old(self)@.filters, d.filters),
                None => true,
            },
    {
        let defaults = match &self.defaults {
            Some(d) => d.clone(),
            None => {
                return ;
            },
        };
        // Merge auto-detection patterns: defaults fill in missing keys.
        let merged_auto = merge_pair_defaults(&self.auto_detection, &defaults.auto_detection);
        self.auto_detection = merged_auto;
        // Rebuild the filter table: each user filter merged with the
        // defaults' filter of the same name, then the filters only the
        // defaults declare.
        let ghost ownv = spec_pair_assoc(old(self).filters@);
        let ghost dv = spec_pair_assoc(defaults.filters@);
        let fcount = self.filters.len();
        let mut rebuilt: Vec<(String, Filter)> = Vec::new();
        let mut i: usize = 0;
        while i < fcount
            invariant
                fcount == self.filters@.len(),
                ownv == spec_pair_assoc(self.filters@),
                dv == spec_pair_assoc(defaults.filters@),
                i <= fcount,
                rebuilt@.len() == i,
                forall|t: int|
                    0 <= t < i ==> (#[trigger] spec_pair_assoc(rebuilt@)[t]).0 == ownv[t].0
                        && spec_filter_entry_merged(
                        spec_pair_assoc(rebuilt@)[t].1,
                        ownv[t].1,
                        spec_assoc_find(dv, ownv[t].0),
                    ),
            decreases fcount - i,
        {
            let ghost prev = spec_pair_assoc(rebuilt@);
            let name = &self.filters[i].0;
            match assoc_find(&defaults.filters, name) {
                Some(d) => {
                    let merged = merge_filter(&self.filters[i].1, d);
                    rebuilt.push((name.clone(), merged));
                },
                None => {
                    rebuilt.push((name.clone(), self.filters[i].1.clone()));
                },
            }
            i = i + 1;
            proof {
                assert forall|t: int|
                    0 <= t < i implies (#[trigger] spec_pair_assoc(rebuilt@)[t]).0 == ownv[t].0
                        && spec_filter_entry_merged(
                        spec_pair_assoc(rebuilt@)[t].1,
                        ownv[t].1,
                        spec_assoc_find(dv, ownv[t].0),
                    ) by {
                    if t < i - 1 {
                        assert(spec_pair_assoc(rebuilt@)[t] == prev[t]);
                        assert(prev[t].0 == ownv[t].0 && spec_filter_entry_merged(
                            prev[t].1,
                            ownv[t].1,
                            spec_assoc_find(dv, ownv[t].0),
                        ));
                    }
                }
            }
        }
        // Phase two: append the filters only the defaults declare.
        proof {
            assert forall|k: Seq<char>|
                spec_assoc_find(ownv, k) is Some implies #[trigger] spec_filters_merged_at(
                spec_pair_assoc(rebuilt@),
                ownv,
                dv,
                k,
            ) by {
                lemma_rebuilt_filters_find(spec_pair_assoc(rebuilt@), ownv, dv, k);
            }
            assert forall|k: Seq<char>|
                spec_assoc_find(ownv, k) is None implies #[trigger] spec_assoc_find(
                spec_pair_assoc(rebuilt@),
                k,
            ) == spec_assoc_find(dv.subrange(0, 0), k) by {
                lemma_rebuilt_filters_find(spec_pair_assoc(rebuilt@), ownv, dv, k);
                assert(dv.subrange(0, 0) =~= Seq::<(Seq<char>, FilterView)>::empty());
            }
        }
        let dn = defaults.filters.len();
        let mut j: usize = 0;
        while j < dn
            invariant
                dn == defaults.filters@.len(),
                ownv == spec_pair_assoc(old(self).filters@),
                dv == spec_pair_assoc(defaults.filters@),
                j <= dn,
                forall|k: Seq<char>|
                    spec_assoc_find(ownv, k) is Some ==> #[trigger] spec_filters_merged_at(
                        spec_pair_assoc(rebuilt@),
                        ownv,
                        dv,
                        k,
                    ),
                forall|k: Seq<char>|
                    spec_assoc_find(ownv, k) is None ==> #[trigger] spec_assoc_find(
                        spec_pair_assoc(rebuilt@),
                        k,
                    ) == spec_assoc_find(dv.subrange(0, j as int), k),
            decreases dn - j,
        {
            let ghost prev = spec_pair_assoc(rebuilt@);
            let key = &defaults.filters[j].0;
            let found = assoc_find(&rebuilt, key).is_some();
            if !found {
                let pair = &defaults.filters[j];
                rebuilt.push((pair.0.clone(), pair.1.clone()));
                proof {
                    assert(spec_pair_assoc(rebuilt@) =~= prev.push((defaults.filters@[
                        j as int].0@, defaults.filters@[j as int].1@)));
                }
            }
            proof {
                let dpair = (defaults.filters@[j as int].0@, defaults.filters@[j as int].1@);
                assert(dv[j as int] == dpair);
                assert(dv.subrange(0, j + 1) =~= dv.subrange(0, j as int).push(dpair));
                if !found {
                    // The pushed default filter shadows nothing the user
                    // declared.
                    assert forall|k: Seq<char>|
                        spec_assoc_find(ownv, k) is Some implies #[trigger] spec_filters_merged_at(
                        spec_pair_assoc(rebuilt@),
                        ownv,
                        dv,
                        k,
                    ) by {
                        assert(spec_filters_merged_at(prev, ownv, dv, k));
                        lemma_assoc_find_push(prev, dpair, k);
                    }
                }
                assert forall|k: Seq<char>|
                    spec_assoc_find(ownv, k) is None implies #[trigger] spec_assoc_find(
                    spec_pair_assoc(rebuilt@),
                    k,
                ) == spec_assoc_find(dv.subrange(0, j + 1), k) by {
                    lemma_assoc_find_push(dv.subrange(0, j as int), dpair, k);
                    if !found {
                        lemma_assoc_find_push(prev, dpair, k);
                    } else {
                        if spec_assoc_find(dv.subrange(0, j as int), k) is None && dpair.0 == k {
                            // The key is already in the rebuilt table, so
                            // the user or an earlier default supplied it.
                            assert(spec_assoc_find(prev, k) is Some);
                        }
                    }
                }
            }
            j = j + 1;
        }
        self.filters = rebuilt;
        proof {
            assert(dv.subrange(0, dn as int) =~= dv);
            assert forall|k: Seq<char>| #[trigger] spec_filters_merged_at(
                spec_pair_assoc(self.filters@),
                ownv,
                dv,
                k,
            ) by {
                if spec_assoc_find(ownv, k) is None {
                    assert(spec_assoc_find(spec_pair_assoc(self.filters@), k) == spec_assoc_find(
                        dv.subrange(0, dn as int),
                        k,
                    ));
                }
            }
        }
    }
}


/// The keywords of a filter's style groups, flattened in declaration
/// order, from group `i` on.
pub open spec fn spec_keywords_from(styles: Seq<(Seq<char>, StyleGroupView)>, i: int) -> Seq<
    Seq<char>,
>
    decreases styles.len() - i,
    when 0 <= i <= styles.len()
{
    if i >= styles.len() {
        Seq::<Seq<char>>::empty()
    } else {
        styles[i].1.keywords + spec_keywords_from(styles, i + 1)
    }
}

/// The icon mapping a theme holds for a word under a filter.
pub open spec fn spec_icon_lookup(t: ThemeView, filter: Seq<char>, word: Seq<char>) -> Option<
    IconMappingView,
> {
    match spec_assoc_find(t.filters, filter) {
        Some(f) => spec_assoc_find(f.icon_mappings, word),
        None => None,
    }
}

impl Theme {
    /// The built-in minimal theme used when no theme file is given:
    /// auto-detection only, no filters.
    pub fn default() -> (r: Self)
        ensures
            r@.metadata.name == "jynx-minimal"@,
            r@.metadata.version == "1.0.0"@,
            r@.metadata.description == "Minimal default theme with auto-detection only"@,
            r@.defaults is None,
            r@.auto_detection.len() == 0,
            r@.compilation is None,
            r@.filters.len() == 0,
    {
        let r = Theme {
            metadata: ThemeMetadata {
                name: String::from_str("jynx-minimal"),
                version: String::from_str("1.0.0"),
                description: String::from_str("Minimal default theme with auto-detection only"),
            },
            defaults: None,
            auto_detection: Vec::new(),
            compilation: None,
            filters: Vec::new(),
        };
        proof {
            assert(r@.auto_detection =~= Seq::<(Seq<char>, AutoDetectionPatternView)>::empty());
            assert(r@.filters =~= Seq::<(Seq<char>, FilterView)>::empty());
        }
        r
    }

    /// The icon mapping for a word under the named filter, if both exist.
    pub fn get_icon_mapping(&self, filter_name: &str, word: &str) -> (r: Option<&IconMapping>)
        ensures
            match r {
                Some(m) => spec_icon_lookup(self@, filter_name@, word@) == Some(m@),
                None => spec_icon_lookup(self@, filter_name@, word@) is None,
            },
    {
        match assoc_find(&self.filters, &String::from_str(filter_name)) {
            Some(filter) => assoc_find(&filter.icon_mappings, &String::from_str(word)),
            None => None,
        }
    }

    /// All keywords of the named filter, over every style group in
    /// declaration order; empty if the filter does not exist.
    pub fn get_filter_keywords(&self, filter_name: &str) -> (r: Vec<&str>)
        ensures
            match spec_assoc_find(self@.filters, filter_name@) {
                Some(f) => r.deep_view() == spec_keywords_from(f.styles, 0),
                None => r.deep_view() == Seq::<Seq<char>>::empty(),
            },
    {
        let mut result: Vec<&str> = Vec::new();
        let filter = match assoc_find(&self.filters, &String::from_str(filter_name)) {
            Some(f) => f,
            None => {
                proof {
                    assert(result.deep_view() =~= Seq::<Seq<char>>::empty());
                }
                return result;
            },
        };
        let ghost stylesv = filter@.styles;
        let ghost mut done = Seq::<Seq<char>>::empty();
        let n = filter.styles.len();
        let mut i: usize = 0;
        while i < n
            invariant
                n == filter.styles@.len(),
                i <= n,
                stylesv == filter@.styles,
                done + spec_keywords_from(stylesv, i as int) == spec_keywords_from(stylesv, 0),
                result@.len() == done.len(),
                forall|t: int| 0 <= t < done.len() ==> (#[trigger] result@[t])@ == done[t],
            decreases n - i,
        {
            let ghost outer_done = done;
            let group = &filter.styles[i].1;
            proof {
                assert(stylesv[i as int].1 == group@);
            }
            let kn = group.keywords.len();
            let mut k: usize = 0;
            while k < kn
                invariant
                    kn == group.keywords@.len(),
                    k <= kn,
                    done == outer_done + group@.keywords.subrange(0, k as int),
                    result@.len() == done.len(),
                    forall|t: int| 0 <= t < done.len() ==> (#[trigger] result@[t])@ == done[t],
                decreases kn - k,
            {
                result.push(group.keywords[k].as_str());
                proof {
                    done = done.push(group.keywords@[k as int]@);
                    assert(done =~= outer_done + group@.keywords.subrange(0, k + 1));
                }
                k = k + 1;
            }
            i = i + 1;
            proof {
                assert(group@.keywords.subrange(0, kn as int) =~= group@.keywords);
                assert(done + spec_keywords_from(stylesv, i as int) =~= outer_done
                    + spec_keywords_from(stylesv, i - 1));
            }
        }
        proof {
            assert(done + spec_keywords_from(stylesv, n as int) =~= done);
            assert forall|t: int| 0 <= t < done.len() implies result.deep_view()[t] == done[t] by {
                assert(result@[t]@ == done[t]);
            }
            assert(result.deep_view() =~= done);
        }
        result
    }
}

} // verus!
