//! ANSI-aware text measurement and rewriting.
//!
//! Recognizes SGR escape sequences (ESC `[`, digits and semicolons, `m`)
//! by direct character scanning. The visible length of a line counts the
//! characters left after removing every such sequence; truncation copies
//! escape sequences through without charging them against the width budget.
//!
//! Visible length counts Unicode scalar values, not rendered terminal
//! cells, so multi-cell glyphs (including icons) are under-counted; width
//! and alignment are approximate for lines containing them. This is
//! deliberate, documented behavior.

use vstd::prelude::*;

verus! {

/// A character allowed in the parameter part of an SGR sequence.
pub open spec fn is_sgr_char(c: char) -> bool {
    (('0' as u32) <= c as u32 && c as u32 <= ('9' as u32)) || c == ';'
}

/// Scans from `i` for the `m` that ends an SGR sequence's parameters.
pub open spec fn spec_sgr_end(s: Seq<char>, i: int) -> Option<int>
    decreases s.len() - i,
    when 0 <= i <= s.len()
{
    if i == s.len() {
        None
    } else if s[i] == 'm' {
        Some(i)
    } else if is_sgr_char(s[i]) {
        spec_sgr_end(s, i + 1)
    } else {
        None
    }
}

/// If an SGR escape sequence starts at `i`, the position just past its
/// final `m`; otherwise `None`.
pub open spec fn spec_escape_end(s: Seq<char>, i: int) -> Option<int> {
    if 0 <= i && i + 1 < s.len() && s[i] == '\x1b' && s[i + 1] == '[' {
        match spec_sgr_end(s, i + 2) {
            Some(j) => Some(j + 1),
            None => None,
        }
    } else {
        None
    }
}

pub proof fn lemma_sgr_end_bounds(s: Seq<char>, i: int)
    requires
        0 <= i <= s.len(),
        spec_sgr_end(s, i) is Some,
    ensures
        i <= spec_sgr_end(s, i)->0 < s.len(),
    decreases s.len() - i,
{
    if i < s.len() && s[i] != 'm' && is_sgr_char(s[i]) {
        lemma_sgr_end_bounds(s, i + 1);
    }
}

/// An escape sequence spans at least three characters and ends within the
/// input.
pub proof fn lemma_escape_end_bounds(s: Seq<char>, i: int)
    requires
        spec_escape_end(s, i) is Some,
    ensures
        i + 3 <= spec_escape_end(s, i)->0 <= s.len(),
{
    lemma_sgr_end_bounds(s, i + 2);
}

/// The characters of `s` from position `i` on with every SGR escape
/// sequence removed.
pub open spec fn spec_strip_ansi_from(s: Seq<char>, i: int) -> Seq<char>
    decreases s.len() - i,
    when 0 <= i <= s.len()
    via spec_strip_ansi_from_dec
{
    if i >= s.len() {
        Seq::<char>::empty()
    } else {
        match spec_escape_end(s, i) {
            Some(j) => spec_strip_ansi_from(s, j),
            None => seq![s[i]] + spec_strip_ansi_from(s, i + 1),
        }
    }
}

#[via_fn]
proof fn spec_strip_ansi_from_dec(s: Seq<char>, i: int) {
    if 0 <= i < s.len() && spec_escape_end(s, i) is Some {
        lemma_escape_end_bounds(s, i);
    }
}

/// `s` with every SGR escape sequence removed.
pub open spec fn spec_strip_ansi(s: Seq<char>) -> Seq<char> {
    spec_strip_ansi_from(s, 0)
}

/// The number of characters of `s` that remain visible once escape
/// sequences are removed.
pub open spec fn spec_visible_len(s: Seq<char>) -> int {
    spec_strip_ansi(s).len() as int
}

/// The prefix of `s` from position `i` holding the next `budget` visible
/// characters; escape sequences before the cut-off are copied through.
pub open spec fn spec_take_visible(s: Seq<char>, i: int, budget: int) -> Seq<char>
    decreases s.len() - i,
    when 0 <= i <= s.len()
    via spec_take_visible_dec
{
    if i >= s.len() || budget <= 0 {
        Seq::<char>::empty()
    } else {
        match spec_escape_end(s, i) {
            Some(j) => s.subrange(i, j) + spec_take_visible(s, j, budget),
            None => seq![s[i]] + spec_take_visible(s, i + 1, budget - 1),
        }
    }
}

#[via_fn]
proof fn spec_take_visible_dec(s: Seq<char>, i: int, budget: int) {
    if 0 <= i < s.len() && spec_escape_end(s, i) is Some {
        lemma_escape_end_bounds(s, i);
    }
}

/// A run of `n` spaces.
pub open spec fn spec_spaces(n: int) -> Seq<char> {
    Seq::<char>::new(if n >= 0 {
        n as nat
    } else {
        0
    }, |i: int| ' ')
}

fn is_sgr_char_exec(c: char) -> (r: bool)
    ensures
        r == is_sgr_char(c),
{
    let u = c as u32;
    (u >= ('0' as u32) && u <= ('9' as u32)) || c == ';'
}

/// The position just past the SGR escape sequence starting at `i`, if one
/// does.
fn escape_end_at(chars: &Vec<char>, i: usize) -> (r: Option<usize>)
    requires
        i < chars@.len(),
    ensures
        match r {
            Some(j) => spec_escape_end(chars@, i as int) == Some(j as int),
            None => spec_escape_end(chars@, i as int) is None,
        },
{
    let n = chars.len();
    if chars[i] != '\x1b' || i + 1 >= n || chars[i + 1] != '[' {
        return None;
    }
    let mut j = i + 2;
    while j < chars.len() && chars[j] != 'm' && is_sgr_char_exec(chars[j])
        invariant
            i + 2 <= j <= chars@.len(),
            spec_sgr_end(chars@, i + 2) == spec_sgr_end(chars@, j as int),
        decreases chars@.len() - j,
    {
        j = j + 1;
    }
    if j < chars.len() && chars[j] == 'm' {
        Some(j + 1)
    } else {
        None
    }
}

/// Counts the visible characters of `chars`.
pub fn visible_count(chars: &Vec<char>) -> (r: usize)
    ensures
        r as int == spec_visible_len(chars@),
{
    let mut count: usize = 0;
    let mut i: usize = 0;
    while i < chars.len()
        invariant
            i <= chars@.len(),
            count <= i,
            count + spec_strip_ansi_from(chars@, i as int).len() == spec_strip_ansi_from(
                chars@,
                0,
            ).len(),
        decreases chars@.len() - i,
    {
        match escape_end_at(chars, i) {
            Some(j) => {
                proof {
                    lemma_escape_end_bounds(chars@, i as int);
                }
                i = j;
            },
            None => {
                count = count + 1;
                i = i + 1;
            },
        }
    }
    count
}

/// Copies from `chars` until `budget` visible characters are taken, escape
/// sequences passing through freely.
pub fn take_visible(chars: &Vec<char>, budget: usize) -> (r: Vec<char>)
    ensures
        r@ == spec_take_visible(chars@, 0, budget as int),
{
    let mut result: Vec<char> = Vec::new();
    let mut i: usize = 0;
    let mut left: usize = budget;
    while i < chars.len() && left > 0
        invariant
            i <= chars@.len(),
            left <= budget,
            result@ + spec_take_visible(chars@, i as int, left as int) == spec_take_visible(
                chars@,
                0,
                budget as int,
            ),
        decreases chars@.len() - i,
    {
        let ghost prev = result@;
        match escape_end_at(chars, i) {
            Some(j) => {
                proof {
                    lemma_escape_end_bounds(chars@, i as int);
                }
                let mut k = i;
                while k < j
                    invariant
                        i <= k <= j <= chars@.len(),
                        result@ == prev + chars@.subrange(i as int, k as int),
                    decreases j - k,
                {
                    result.push(chars[k]);
                    k = k + 1;
                    assert(result@ =~= prev + chars@.subrange(i as int, k as int));
                }
                proof {
                    assert(result@ + spec_take_visible(chars@, j as int, left as int) =~= prev
                        + spec_take_visible(chars@, i as int, left as int));
                }
                i = j;
            },
            None => {
                result.push(chars[i]);
                proof {
                    assert(result@ + spec_take_visible(chars@, i + 1, left - 1) =~= prev
                        + spec_take_visible(chars@, i as int, left as int));
                }
                i = i + 1;
                left = left - 1;
            },
        }
    }
    proof {
        assert(result@ + spec_take_visible(chars@, i as int, left as int) =~= result@);
    }
    result
}

/// A vector of `n` spaces.
pub fn spaces(n: usize) -> (r: Vec<char>)
    ensures
        r@ == spec_spaces(n as int),
{
    let mut result: Vec<char> = Vec::new();
    let mut i: usize = 0;
    while i < n
        invariant
            i <= n,
            result@ == spec_spaces(i as int),
        decreases n - i,
    {
        result.push(' ');
        i = i + 1;
        assert(result@ =~= spec_spaces(i as int));
    }
    result
}


/// Removes every SGR escape sequence from `chars`.
pub fn strip_ansi_chars(chars: &Vec<char>) -> (r: Vec<char>)
    ensures
        r@ == spec_strip_ansi(chars@),
{
    let mut result: Vec<char> = Vec::new();
    let mut i: usize = 0;
    while i < chars.len()
        invariant
            i <= chars@.len(),
            result@ + spec_strip_ansi_from(chars@, i as int) == spec_strip_ansi_from(chars@, 0),
        decreases chars@.len() - i,
    {
        let ghost prev = result@;
        match escape_end_at(chars, i) {
            Some(j) => {
                proof {
                    lemma_escape_end_bounds(chars@, i as int);
                }
                i = j;
            },
            None => {
                result.push(chars[i]);
                proof {
                    assert(result@ + spec_strip_ansi_from(chars@, i + 1) =~= prev
                        + spec_strip_ansi_from(chars@, i as int));
                }
                i = i + 1;
            },
        }
    }
    proof {
        assert(result@ + spec_strip_ansi_from(chars@, i as int) =~= result@);
    }
    result
}

} // verus!
