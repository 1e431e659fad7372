//! Color template parser.
//!
//! Implements the `%c:colorname(text)` templating mini-language:
//! - no nesting: a `%c:` marker inside a template's content stays literal;
//! - balanced parentheses: content may contain `()` pairs, tracked by depth;
//! - graceful fallback: an unknown color or an unterminated template is left
//!   as literal text.
//!
//! The grammar is scanned left to right. `spec_process_templates` is the
//! mathematical definition of the rewrite; the executable parser is proved
//! to compute exactly that sequence.

use vstd::prelude::*;
use crate::extended_colors::get_extended_color_code;
use crate::extended_colors::spec_color_code;
use crate::text::chars_of;
use crate::text::push_all;
use crate::text::string_from_chars;

verus! {

/// The SGR reset sequence appended after every colored span.
pub open spec fn spec_reset() -> Seq<char> {
    "\x1b[0m"@
}

/// Characters allowed in a color name: ASCII letters, digits, underscore.
pub open spec fn is_name_char(c: char) -> bool {
    (('a' as u32) <= c as u32 && c as u32 <= ('z' as u32)) || (('A' as u32) <= c as u32
        && c as u32 <= ('Z' as u32)) || (('0' as u32) <= c as u32 && c as u32 <= ('9' as u32)) || c
        == '_'
}

/// Scans from `i` for the `(` that ends a color name. Returns its index, or
/// `None` if a character that may not appear in a name (or the end of the
/// input) comes first.
pub open spec fn spec_name_end(s: Seq<char>, i: int) -> Option<int>
    decreases s.len() - i,
    when 0 <= i <= s.len()
{
    if i == s.len() {
        None
    } else if s[i] == '(' {
        Some(i)
    } else if is_name_char(s[i]) {
        spec_name_end(s, i + 1)
    } else {
        None
    }
}

/// Scans from `i` with an open-parenthesis count of `depth` for the `)` that
/// brings the count back to zero. Returns its index, or `None` if the input
/// ends first.
pub open spec fn spec_match_close(s: Seq<char>, i: int, depth: int) -> Option<int>
    decreases s.len() - i,
    when 0 <= i <= s.len()
{
    if i == s.len() {
        None
    } else if s[i] == '(' {
        spec_match_close(s, i + 1, depth + 1)
    } else if s[i] == ')' {
        if depth == 1 {
            Some(i)
        } else {
            spec_match_close(s, i + 1, depth - 1)
        }
    } else {
        spec_match_close(s, i + 1, depth)
    }
}

/// Recognizes a template at position `i`: the literal `%c:`, a color name,
/// and a parenthesized content span with balanced parentheses. On success
/// yields the position just past the closing `)`, the name, and the content.
pub open spec fn spec_try_parse(s: Seq<char>, i: int) -> Option<(int, Seq<char>, Seq<char>)> {
    if i + 4 >= s.len() {
        None
    } else if !(s[i] == '%' && s[i + 1] == 'c' && s[i + 2] == ':') {
        None
    } else {
        match spec_name_end(s, i + 3) {
            Some(open) => match spec_match_close(s, open + 1, 1) {
                Some(close) => Some(
                    (close + 1, s.subrange(i + 3, open), s.subrange(open + 1, close)),
                ),
                None => None,
            },
            None => None,
        }
    }
}

/// What a recognized template turns into. In strip mode the bare content; in
/// color mode the resolved color code around the content, or `None` (keep the
/// template literal) when the color name is unknown.
pub open spec fn spec_template_render(name: Seq<char>, content: Seq<char>, strip: bool) -> Option<
    Seq<char>,
> {
    if strip {
        Some(content)
    } else if spec_color_code(name).len() == 0 {
        None
    } else {
        Some(spec_color_code(name) + content + spec_reset())
    }
}

/// A successful parse step at position `i`: the position to resume at and the
/// replacement text.
pub open spec fn spec_parse_at(s: Seq<char>, i: int, strip: bool) -> Option<(int, Seq<char>)> {
    match spec_try_parse(s, i) {
        Some((end, name, content)) => match spec_template_render(name, content, strip) {
            Some(out) => Some((end, out)),
            None => None,
        },
        None => None,
    }
}

pub proof fn lemma_name_end_bounds(s: Seq<char>, i: int)
    requires
        0 <= i <= s.len(),
        spec_name_end(s, i) is Some,
    ensures
        i <= spec_name_end(s, i)->0 < s.len(),
        s[spec_name_end(s, i)->0] == '(',
    decreases s.len() - i,
{
    if i < s.len() && s[i] != '(' && is_name_char(s[i]) {
        lemma_name_end_bounds(s, i + 1);
    }
}

pub proof fn lemma_match_close_bounds(s: Seq<char>, i: int, depth: int)
    requires
        0 <= i <= s.len(),
        spec_match_close(s, i, depth) is Some,
    ensures
        i <= spec_match_close(s, i, depth)->0 < s.len(),
        s[spec_match_close(s, i, depth)->0] == ')',
    decreases s.len() - i,
{
    if i < s.len() {
        if s[i] == '(' {
            lemma_match_close_bounds(s, i + 1, depth + 1);
        } else if s[i] == ')' {
            if depth != 1 {
                lemma_match_close_bounds(s, i + 1, depth - 1);
            }
        } else {
            lemma_match_close_bounds(s, i + 1, depth);
        }
    }
}

/// A parse step always advances: the resume position lies strictly past `i`
/// and within the input.
pub proof fn lemma_parse_at_bounds(s: Seq<char>, i: int, strip: bool)
    requires
        0 <= i < s.len(),
        spec_parse_at(s, i, strip) is Some,
    ensures
        i < (spec_parse_at(s, i, strip)->0).0 <= s.len(),
{
    let open = spec_name_end(s, i + 3)->0;
    lemma_name_end_bounds(s, i + 3);
    lemma_match_close_bounds(s, open + 1, 1);
}

/// The template rewrite of `s` from position `i` on: at each position either
/// a template is recognized and replaced, or one literal character is copied.
pub open spec fn spec_process_templates(s: Seq<char>, i: int, strip: bool) -> Seq<char>
    decreases s.len() - i,
    when 0 <= i <= s.len()
    via spec_process_templates_dec
{
    if i >= s.len() {
        Seq::<char>::empty()
    } else {
        match spec_parse_at(s, i, strip) {
            Some((end, out)) => out + spec_process_templates(s, end, strip),
            None => seq![s[i]] + spec_process_templates(s, i + 1, strip),
        }
    }
}

#[via_fn]
proof fn spec_process_templates_dec(s: Seq<char>, i: int, strip: bool) {
    if 0 <= i < s.len() {
        if spec_parse_at(s, i, strip) is Some {
            lemma_parse_at_bounds(s, i, strip);
        }
    }
}

/// The whole-string rewrite: templates applied in color mode, stripped to
/// their content in no-color mode.
pub open spec fn spec_process(s: Seq<char>, no_color: bool) -> Seq<char> {
    spec_process_templates(s, 0, no_color)
}

fn is_name_char_exec(c: char) -> (r: bool)
    ensures
        r == is_name_char(c),
{
    let u = c as u32;
    (u >= ('a' as u32) && u <= ('z' as u32)) || (u >= ('A' as u32) && u <= ('Z' as u32)) || (u
        >= ('0' as u32) && u <= ('9' as u32)) || c == '_'
}

/// Resolves a color name given as characters.
fn color_code_chars(name: &Vec<char>) -> (r: Vec<char>)
    ensures
        r@ == spec_color_code(name@),
{
    let s = string_from_chars(name);
    let code = get_extended_color_code(s.as_str());
    chars_of(code.as_str())
}

/// Template parser for `%c:colorname(text)` patterns.
pub struct ColorTemplateParser {
    /// No-color mode flag.
    no_color: bool,
}

impl ColorTemplateParser {
    /// Whether the parser strips templates instead of coloring them.
    pub closed spec fn spec_no_color(&self) -> bool {
        self.no_color
    }

    /// Create a new parser with optional no-color mode.
    pub fn new(no_color: bool) -> (r: Self)
        ensures
            r.spec_no_color() == no_color,
    {
        ColorTemplateParser { no_color }
    }

    /// Process text with color templates: color them, or in no-color mode
    /// strip them to their content.
    pub fn process(&self, text: &str) -> (r: String)
        ensures
            r@ == spec_process(text@, self.spec_no_color()),
    {
        if self.no_color {
            self.strip_templates(text)
        } else {
            self.apply_templates(text)
        }
    }

    /// Apply color templates, converting `%c:colorname(text)` to colored text.
    fn apply_templates(&self, text: &str) -> (r: String)
        ensures
            r@ == spec_process_templates(text@, 0, false),
    {
        self.process_templates(text, false)
    }

    /// Strip all templates to their plain content.
    fn strip_templates(&self, text: &str) -> (r: String)
        ensures
            r@ == spec_process_templates(text@, 0, true),
    {
        self.process_templates(text, true)
    }

    /// Process templates with unified logic for both color and no-color modes.
    fn process_templates(&self, text: &str, strip_only: bool) -> (r: String)
        ensures
            r@ == spec_process_templates(text@, 0, strip_only),
    {
        let chars = chars_of(text);
        let mut result: Vec<char> = Vec::new();
        let mut i: usize = 0;
        while i < chars.len()
            invariant
                i <= chars@.len(),
                chars@ == text@,
                result@ + spec_process_templates(chars@, i as int, strip_only)
                    == spec_process_templates(chars@, 0, strip_only),
            decreases chars@.len() - i,
        {
            let ghost prev = result@;
            match self.try_parse_template_at(&chars, i, strip_only) {
                Some((template_end, processed_content)) => {
                    proof {
                        lemma_parse_at_bounds(chars@, i as int, strip_only);
                    }
                    push_all(&mut result, &processed_content);
                    proof {
                        assert(spec_process_templates(chars@, i as int, strip_only)
                            == processed_content@ + spec_process_templates(
                            chars@,
                            template_end as int,
                            strip_only,
                        ));
                        assert(result@ + spec_process_templates(
                            chars@,
                            template_end as int,
                            strip_only,
                        ) =~= prev + spec_process_templates(chars@, i as int, strip_only));
                    }
                    i = template_end;
                },
                None => {
                    result.push(chars[i]);
                    proof {
                        assert(spec_process_templates(chars@, i as int, strip_only) == seq![
                            chars@[i as int],
                        ] + spec_process_templates(chars@, i + 1, strip_only));
                        assert(result@ + spec_process_templates(chars@, i + 1, strip_only) =~= prev
                            + spec_process_templates(chars@, i as int, strip_only));
                    }
                    i = i + 1;
                },
            }
        }
        proof {
            assert(result@ + spec_process_templates(chars@, i as int, strip_only) =~= result@);
        }
        string_from_chars(&result)
    }

    /// Try to parse a template starting at the given position. Returns the
    /// end position and the processed replacement text on success.
    fn try_parse_template_at(&self, chars: &Vec<char>, start: usize, strip_only: bool) -> (r:
        Option<(usize, Vec<char>)>)
        requires
            start < chars@.len(),
        ensures
            match r {
                Some(step) => spec_parse_at(chars@, start as int, strip_only) == Some(
                    (step.0 as int, step.1@),
                ),
                None => spec_parse_at(chars@, start as int, strip_only) is None,
            },
    {
        // Check if we have enough characters for a minimal template.
        if chars.len() <= 4 || start > chars.len() - 5 {
            return None;
        }
        // Check for the `%c:` prefix.
        if chars[start] != '%' || chars[start + 1] != 'c' || chars[start + 2] != ':' {
            return None;
        }
        // Extract the color name until the opening parenthesis.
        let mut color_name: Vec<char> = Vec::new();
        let mut i = start + 3;
        while i < chars.len() && chars[i] != '('
            invariant
                start + 3 <= i <= chars@.len(),
                color_name@ == chars@.subrange(start + 3, i as int),
                spec_name_end(chars@, start + 3) == spec_name_end(chars@, i as int),
            decreases chars@.len() - i,
        {
            let ch = chars[i];
            if is_name_char_exec(ch) {
                color_name.push(ch);
            } else {
                // Invalid character in the color name.
                return None;
            }
            i = i + 1;
            assert(color_name@ =~= chars@.subrange(start + 3, i as int));
        }
        // Check that we found the opening parenthesis.
        if i >= chars.len() || chars[i] != '(' {
            return None;
        }
        // Find the balanced content after the parenthesis.
        let content_start = i + 1;
        match self.find_balanced_content_from_chars(chars, content_start) {
            None => None,
            Some((content_end, content)) => {
                proof {
                    lemma_match_close_bounds(chars@, content_start as int, 1);
                }
                if strip_only {
                    Some((content_end + 1, content))
                } else {
                    // Resolve the color; an unknown name keeps the template literal.
                    let color_code = color_code_chars(&color_name);
                    if color_code.len() == 0 {
                        return None;
                    }
                    let mut colored_text = color_code;
                    push_all(&mut colored_text, &content);
                    let reset = chars_of("\x1b[0m");
                    push_all(&mut colored_text, &reset);
                    Some((content_end + 1, colored_text))
                }
            },
        }
    }

    /// Find the content up to the parenthesis matching the one just before
    /// `start`, counting depth. Returns the index of the closing parenthesis
    /// and the content before it.
    fn find_balanced_content_from_chars(&self, chars: &Vec<char>, start: usize) -> (r: Option<
        (usize, Vec<char>),
    >)
        requires
            start <= chars@.len(),
        ensures
            match r {
                Some(found) => spec_match_close(chars@, start as int, 1) == Some(found.0 as int)
                    && found.1@ == chars@.subrange(start as int, found.0 as int),
                None => spec_match_close(chars@, start as int, 1) is None,
            },
    {
        // We start just after the opening parenthesis, so at depth one.
        let mut depth: u128 = 1;
        let mut content: Vec<char> = Vec::new();
        let mut pos = start;
        while pos < chars.len() && depth > 0
            invariant
                start <= pos <= chars@.len(),
                depth <= pos - start + 1,
                depth > 0 ==> spec_match_close(chars@, start as int, 1) == spec_match_close(
                    chars@,
                    pos as int,
                    depth as int,
                ),
                depth > 0 ==> content@ == chars@.subrange(start as int, pos as int),
                depth == 0 ==> pos >= start + 1 && spec_match_close(chars@, start as int, 1)
                    == Some(pos - 1) && content@ == chars@.subrange(start as int, pos - 1),
            decreases chars@.len() - pos,
        {
            let ch = chars[pos];
            if ch == '(' {
                depth = depth + 1;
                content.push(ch);
            } else if ch == ')' {
                depth = depth - 1;
                if depth > 0 {
                    content.push(ch);
                }
                // At depth zero this is the matching `)`: not part of the content.
            } else {
                content.push(ch);
            }
            pos = pos + 1;
            proof {
                if depth > 0 {
                    assert(content@ =~= chars@.subrange(start as int, pos as int));
                }
            }
        }
        if depth == 0 {
            Some((pos - 1, content))
        } else {
            // The input ended before the parentheses balanced.
            assert(spec_match_close(chars@, pos as int, depth as int) is None);
            None
        }
    }
}

} // verus!

