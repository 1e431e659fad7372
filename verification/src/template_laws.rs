//! Laws of the template parser.
//!
//! Public proof functions stating, over the parser's specification,
//! when stripping is idempotent, that a template wrapped around balanced
//! content always parses (and around never-closing content never does),
//! and that an unknown color name leaves a template untouched.

use vstd::prelude::*;
use crate::extended_colors::spec_color_code;
use crate::template_parser::is_name_char;
use crate::template_parser::spec_match_close;
use crate::template_parser::spec_name_end;
use crate::template_parser::spec_parse_at;
use crate::template_parser::spec_process;
use crate::template_parser::spec_process_templates;
use crate::template_parser::spec_try_parse;

verus! {

/// No position of `s` carries a template that the given mode would rewrite.
pub open spec fn spec_inert(s: Seq<char>, strip: bool) -> bool {
    forall|i: int| 0 <= i < s.len() ==> spec_parse_at(s, i, strip) is None
}

/// The number of `(` minus the number of `)` among the first `i` characters.
pub open spec fn paren_excess(c: Seq<char>, i: int) -> int
    decreases i,
    when 0 <= i <= c.len()
{
    if i == 0 {
        0
    } else {
        paren_excess(c, i - 1) + if c[i - 1] == '(' {
            1int
        } else if c[i - 1] == ')' {
            (-1int)
        } else {
            0int
        }
    }
}

/// Balanced content: no prefix closes more parentheses than it opens, and
/// the whole string closes exactly as many as it opens.
pub open spec fn spec_paren_balanced(c: Seq<char>) -> bool {
    (forall|i: int| 0 <= i <= c.len() ==> paren_excess(c, i) >= 0) && paren_excess(c, c.len() as int)
        == 0
}

/// Never-closing content: no prefix closes more parentheses than it opens,
/// so a `)` matching an opening parenthesis placed before `c` never comes.
pub open spec fn spec_paren_never_closing(c: Seq<char>) -> bool {
    forall|i: int| 0 <= i <= c.len() ==> paren_excess(c, i) >= 0
}

/// No `%c:` marker starts at position `k` of `c`.
pub open spec fn spec_no_marker_at(c: Seq<char>, k: int) -> bool {
    !(c[k] == '%' && c[k + 1] == 'c' && c[k + 2] == ':')
}

/// `c` contains no `%c:` marker.
pub open spec fn spec_marker_free(c: Seq<char>) -> bool {
    forall|k: int| 0 <= k && k + 2 < c.len() ==> #[trigger] spec_no_marker_at(c, k)
}

/// The literal text of a template: `%c:`, the name, and the content in
/// parentheses.
pub open spec fn spec_template_text(name: Seq<char>, content: Seq<char>) -> Seq<char> {
    seq!['%', 'c', ':'] + name + seq!['('] + content + seq![')']
}

/// A name fit for a template: every character a name character.
pub open spec fn spec_valid_name(name: Seq<char>) -> bool {
    forall|i: int| 0 <= i < name.len() ==> is_name_char(name[i])
}

/// On a string without rewritable templates the parser is the identity.
pub proof fn lemma_inert_process_identity(s: Seq<char>, strip: bool)
    requires
        spec_inert(s, strip),
    ensures
        spec_process(s, strip) == s,
{
    lemma_inert_process_from(s, 0, strip);
    assert(s.subrange(0, s.len() as int) =~= s);
}

proof fn lemma_inert_process_from(s: Seq<char>, i: int, strip: bool)
    requires
        0 <= i <= s.len(),
        spec_inert(s, strip),
    ensures
        spec_process_templates(s, i, strip) == s.subrange(i, s.len() as int),
    decreases s.len() - i,
{
    if i >= s.len() {
        assert(s.subrange(i, s.len() as int) =~= Seq::<char>::empty());
    } else {
        lemma_inert_process_from(s, i + 1, strip);
        assert(seq![s[i]] + s.subrange(i + 1, s.len() as int) =~= s.subrange(
            i,
            s.len() as int,
        ));
    }
}

/// Idempotence of no-color stripping: once stripping has left a string with
/// no further recognizable template, stripping it again changes nothing.
pub proof fn lemma_strip_idempotent(s: Seq<char>)
    requires
        spec_inert(spec_process(s, true), true),
    ensures
        spec_process(spec_process(s, true), true) == spec_process(s, true),
{
    lemma_inert_process_identity(spec_process(s, true), true);
}

/// Unfolds `paren_excess` one step from the left end of a region of `s`
/// matched against `c`.
proof fn lemma_excess_transfer(s: Seq<char>, a: int, c: Seq<char>, k: int)
    requires
        0 <= a,
        0 <= k <= c.len(),
        a + c.len() <= s.len(),
        s.subrange(a, a + c.len()) == c,
    ensures
        paren_excess(s, a + k) - paren_excess(s, a) == paren_excess(c, k),
    decreases k,
{
    if k > 0 {
        lemma_excess_transfer(s, a, c, k - 1);
        assert(s[a + k - 1] == c[k - 1]) by {
            assert(s.subrange(a, a + c.len())[k - 1] == s[a + k - 1]);
        }
    }
}

/// Scanning for a matching `)` from position `m` at the depth the region's
/// parenthesis count gives, the scan ends exactly at `b`, where `)` closes
/// the region.
proof fn lemma_close_over_balanced(s: Seq<char>, a: int, b: int, m: int)
    requires
        0 <= a <= m <= b < s.len(),
        s[b] == ')',
        forall|k: int| a <= k <= b ==> paren_excess(s, k) - paren_excess(s, a) >= 0,
        paren_excess(s, b) - paren_excess(s, a) == 0,
    ensures
        spec_match_close(s, m, 1 + paren_excess(s, m) - paren_excess(s, a)) == Some(b),
    decreases b - m,
{
    let d = 1 + paren_excess(s, m) - paren_excess(s, a);
    if m == b {
        assert(d == 1);
    } else {
        assert(paren_excess(s, m + 1) == paren_excess(s, m) + if s[m] == '(' {
            1int
        } else if s[m] == ')' {
            (-1int)
        } else {
            0int
        });
        if s[m] == ')' {
            // The region stays non-negative past this `)`, so the depth here
            // was at least two and the scan does not stop.
            assert(paren_excess(s, m + 1) - paren_excess(s, a) >= 0);
            assert(d >= 2);
        }
        lemma_close_over_balanced(s, a, b, m + 1);
    }
}

/// Scanning for a matching `)` over a region that never closes, the scan
/// reaches the end of the input and fails.
proof fn lemma_close_never(s: Seq<char>, a: int, m: int)
    requires
        0 <= a <= m <= s.len(),
        forall|k: int| a <= k <= s.len() ==> paren_excess(s, k) - paren_excess(s, a) >= 0,
    ensures
        spec_match_close(s, m, 1 + paren_excess(s, m) - paren_excess(s, a)) is None,
    decreases s.len() - m,
{
    if m < s.len() {
        assert(paren_excess(s, m + 1) == paren_excess(s, m) + if s[m] == '(' {
            1int
        } else if s[m] == ')' {
            (-1int)
        } else {
            0int
        });
        if s[m] == ')' {
            assert(paren_excess(s, m + 1) - paren_excess(s, a) >= 0);
        }
        lemma_close_never(s, a, m + 1);
    }
}

/// Scanning a run of name characters ending at `(`, the name scan finds
/// that parenthesis.
proof fn lemma_name_end_over(s: Seq<char>, i: int, o: int)
    requires
        0 <= i <= o < s.len(),
        s[o] == '(',
        forall|k: int| i <= k < o ==> is_name_char(s[k]),
    ensures
        spec_name_end(s, i) == Some(o),
    decreases o - i,
{
    if i < o {
        assert(is_name_char(s[i]));
        assert(s[i] != '(');
        lemma_name_end_over(s, i + 1, o);
    }
}

/// Balance invariant, positive half: a template wrapped around balanced
/// content parses, and stripping it yields exactly the content.
pub proof fn lemma_balanced_template_strips(name: Seq<char>, content: Seq<char>)
    requires
        spec_valid_name(name),
        spec_paren_balanced(content),
    ensures
        spec_try_parse(spec_template_text(name, content), 0) == Some(
            (spec_template_text(name, content).len() as int, name, content),
        ),
        spec_process(spec_template_text(name, content), true) == content,
{
    let s = spec_template_text(name, content);
    let o = 3 + name.len() as int;
    let b = o + 1 + content.len() as int;
    assert(s.len() == content.len() + name.len() + 5);
    assert(s[0] == '%' && s[1] == 'c' && s[2] == ':');
    assert(s[o] == '(');
    assert(s[b] == ')');
    assert forall|k: int| 3 <= k < o implies is_name_char(s[k]) by {
        assert(s[k] == name[k - 3]);
    }
    lemma_name_end_over(s, 3, o);
    assert(s.subrange(o + 1, o + 1 + content.len()) =~= content);
    assert forall|k: int| o + 1 <= k <= b implies #[trigger] paren_excess(s, k) - paren_excess(
        s,
        o + 1,
    ) >= 0 by {
        lemma_excess_transfer(s, o + 1, content, k - (o + 1));
    }
    assert(paren_excess(s, b) - paren_excess(s, o + 1) == 0) by {
        lemma_excess_transfer(s, o + 1, content, content.len() as int);
    }
    lemma_close_over_balanced(s, o + 1, b, o + 1);
    assert(spec_match_close(s, o + 1, 1) == Some(b));
    assert(s.subrange(3, o) =~= name);
    assert(spec_try_parse(s, 0) == Some((b + 1, name, content)));
    assert(spec_parse_at(s, 0, true) == Some((b + 1, content)));
    assert(spec_process_templates(s, b + 1, true) == Seq::<char>::empty());
    assert(spec_process(s, true) =~= content);
}

/// Balance invariant, negative half: around content whose parentheses never
/// close the opening one, the template does not parse, and stripping leaves
/// the literal text exactly as it is.
pub proof fn lemma_unclosed_template_literal(name: Seq<char>, content: Seq<char>)
    requires
        spec_valid_name(name),
        spec_paren_never_closing(content),
        spec_marker_free(content),
    ensures
        spec_try_parse(seq!['%', 'c', ':'] + name + seq!['('] + content, 0) is None,
        spec_process(seq!['%', 'c', ':'] + name + seq!['('] + content, true) == seq![
            '%',
            'c',
            ':',
        ] + name + seq!['('] + content,
{
    let s = seq!['%', 'c', ':'] + name + seq!['('] + content;
    let o = 3 + name.len() as int;
    assert(s.len() == content.len() + name.len() + 4);
    assert(s[o] == '(');
    if s.len() > 4 {
        assert forall|k: int| 3 <= k < o implies is_name_char(s[k]) by {
            assert(s[k] == name[k - 3]);
        }
        lemma_name_end_over(s, 3, o);
        assert(s.subrange(o + 1, o + 1 + content.len()) =~= content);
        assert forall|k: int| o + 1 <= k <= s.len() implies #[trigger] paren_excess(s, k)
            - paren_excess(s, o + 1) >= 0 by {
            lemma_excess_transfer(s, o + 1, content, k - (o + 1));
        }
        lemma_close_never(s, o + 1, o + 1);
        assert(spec_match_close(s, o + 1, 1) is None);
    }
    lemma_literal_tail_inert(name, content, s, o);
    lemma_inert_process_identity(s, true);
}

/// No template is recognized anywhere in `%c:name(content` when neither the
/// name nor the content holds a `%c:` marker and the parenthesis never
/// closes.
proof fn lemma_literal_tail_inert(name: Seq<char>, content: Seq<char>, s: Seq<char>, o: int)
    requires
        s == seq!['%', 'c', ':'] + name + seq!['('] + content,
        o == 3 + name.len(),
        spec_valid_name(name),
        spec_marker_free(content),
        spec_try_parse(s, 0) is None,
    ensures
        spec_inert(s, true),
{
    assert forall|i: int| 0 <= i < s.len() implies spec_parse_at(s, i, true) is None by {
        if i == 0 {
        } else if i + 4 >= s.len() {
        } else {
            lemma_no_marker_inside(name, content, s, o, i);
        }
    }
}

/// At a position past the start, some character of the would-be `%c:` marker
/// is missing.
proof fn lemma_no_marker_inside(name: Seq<char>, content: Seq<char>, s: Seq<char>, o: int, i: int)
    requires
        s == seq!['%', 'c', ':'] + name + seq!['('] + content,
        o == 3 + name.len(),
        spec_valid_name(name),
        spec_marker_free(content),
        1 <= i,
        i + 2 < s.len(),
    ensures
        !(s[i] == '%' && s[i + 1] == 'c' && s[i + 2] == ':'),
{
    if s[i] == '%' && s[i + 1] == 'c' && s[i + 2] == ':' {
        // `%` is not a name character and not `(`, so the marker cannot
        // start inside the name or on the parenthesis; it cannot start in
        // the prefix past position zero either, so it lies in the content,
        // which is marker-free.
        assert(!is_name_char('%'));
        if i < 3 {
            assert(s[1] == 'c' && s[2] == ':' && s[3] == if name.len() > 0 {
                name[0]
            } else {
                '('
            });
            assert(false);
        } else if i < o {
            assert(s[i] == name[i - 3]);
            assert(false);
        } else if i == o {
            assert(s[i] == '(');
            assert(false);
        } else {
            let k = i - (o + 1);
            assert(spec_no_marker_at(content, k));
            assert(s[i] == content[k]);
            assert(s[i + 1] == content[k + 1]);
            assert(s[i + 2] == content[k + 2]);
            assert(false);
        }
    }
}

/// Unknown-color passthrough: in color mode a template whose color name does
/// not resolve renders exactly as its input, byte for byte.
pub proof fn lemma_unknown_color_passthrough(name: Seq<char>, content: Seq<char>)
    requires
        spec_valid_name(name),
        spec_paren_balanced(content),
        spec_marker_free(content),
        spec_color_code(name).len() == 0,
    ensures
        spec_process(spec_template_text(name, content), false) == spec_template_text(
            name,
            content,
        ),
{
    let s = spec_template_text(name, content);
    lemma_balanced_template_strips(name, content);
    assert(spec_parse_at(s, 0, false) is None);
    assert forall|i: int| 0 <= i < s.len() implies spec_parse_at(s, i, false) is None by {
        if i == 0 {
        } else if i + 4 >= s.len() {
        } else {
            lemma_template_no_marker_inside(name, content, s, i);
        }
    }
    lemma_inert_process_identity(s, false);
}

/// Like `lemma_no_marker_inside`, for the closed template text.
proof fn lemma_template_no_marker_inside(name: Seq<char>, content: Seq<char>, s: Seq<char>, i: int)
    requires
        s == spec_template_text(name, content),
        spec_valid_name(name),
        spec_marker_free(content),
        1 <= i,
        i + 2 < s.len(),
    ensures
        !(s[i] == '%' && s[i + 1] == 'c' && s[i + 2] == ':'),
{
    let o = 3 + name.len() as int;
    let b = o + 1 + content.len() as int;
    if s[i] == '%' && s[i + 1] == 'c' && s[i + 2] == ':' {
        assert(!is_name_char('%'));
        if i < 3 {
            assert(s[1] == 'c' && s[2] == ':' && s[3] == if name.len() > 0 {
                name[0]
            } else {
                '('
            });
            assert(false);
        } else if i < o {
            assert(s[i] == name[i - 3]);
            assert(false);
        } else if i == o {
            assert(s[i] == '(');
            assert(false);
        } else if i < b {
            let k = i - (o + 1);
            assert(s[i] == content[k]);
            if k + 2 < content.len() {
                assert(spec_no_marker_at(content, k));
                assert(s[i + 1] == content[k + 1]);
                assert(s[i + 2] == content[k + 2]);
            } else {
                // The marker would run into the closing parenthesis.
                assert(s[b] == ')');
                if k + 1 == content.len() {
                    assert(s[i + 1] == ')');
                } else {
                    assert(s[i + 2] == ')');
                }
            }
            assert(false);
        } else {
            assert(s[i] == ')');
            assert(false);
        }
    }
}

} // verus!
