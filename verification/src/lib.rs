//! jynx - a line-oriented text colorizer.
//!
//! The library rewrites lines of text with ANSI styling, guided by a set of
//! built-in auto-detection patterns and an optional user-supplied theme.
//! Its core is a five-stage, per-line pipeline: an inline `%c:color(text)`
//! template parser, theme-driven highlighting (auto-detection, `:word:` icon
//! substitution, keyword styling), and an ANSI-aware width/alignment
//! formatter.

pub mod ansi;
pub mod auto_detect;
pub mod compiled;
pub mod extended_colors;
pub mod pipeline;
pub mod regexes;
pub mod template_laws;
pub mod template_parser;
pub mod text;
pub mod theme;
