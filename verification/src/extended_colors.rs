//! The built-in color palette.
//!
//! Maps a color name to an ANSI 256-color foreground escape sequence. The
//! lookup is pure: a known name yields its escape sequence, an unknown name
//! yields the empty string, which callers treat as "no such color".

use vstd::prelude::*;
use vstd::string::StringExecFns;

verus! {

/// The escape sequence a color name resolves to, or the empty sequence if
/// the name is not in the palette.
pub open spec fn spec_color_code(name: Seq<char>) -> Seq<char> {
    if name == "red"@ {
        "\x1b[38;5;9m"@
    } else if name == "green"@ {
        "\x1b[38;5;10m"@
    } else if name == "yellow"@ {
        "\x1b[38;5;11m"@
    } else if name == "blue"@ {
        "\x1b[38;5;12m"@
    } else if name == "magenta"@ {
        "\x1b[38;5;13m"@
    } else if name == "cyan"@ {
        "\x1b[38;5;14m"@
    } else if name == "white"@ {
        "\x1b[38;5;15m"@
    } else if name == "black"@ {
        "\x1b[38;5;0m"@
    } else if name == "grey"@ {
        "\x1b[38;5;245m"@
    } else if name == "gray"@ {
        "\x1b[38;5;245m"@
    } else if name == "orange"@ {
        "\x1b[38;5;214m"@
    } else if name == "amber"@ {
        "\x1b[38;5;220m"@
    } else if name == "gold"@ {
        "\x1b[38;5;178m"@
    } else if name == "crimson"@ {
        "\x1b[38;5;196m"@
    } else if name == "emerald"@ {
        "\x1b[38;5;34m"@
    } else if name == "lime"@ {
        "\x1b[38;5;118m"@
    } else if name == "azure"@ {
        "\x1b[38;5;39m"@
    } else if name == "royal"@ {
        "\x1b[38;5;63m"@
    } else if name == "teal"@ {
        "\x1b[38;5;30m"@
    } else if name == "purple"@ {
        "\x1b[38;5;129m"@
    } else if name == "violet"@ {
        "\x1b[38;5;135m"@
    } else if name == "pink"@ {
        "\x1b[38;5;205m"@
    } else if name == "silver"@ {
        "\x1b[38;5;250m"@
    } else {
        Seq::<char>::empty()
    }
}

/// Resolves a color name to its ANSI escape sequence; unknown names resolve
/// to the empty string.
pub fn get_extended_color_code(name: &str) -> (r: String)
    ensures
        r@ == spec_color_code(name@),
{
    let owned: String = String::from_str(name);
    if owned == String::from_str("red") {
        String::from_str("\x1b[38;5;9m")
    } else if owned == String::from_str("green") {
        String::from_str("\x1b[38;5;10m")
    } else if owned == String::from_str("yellow") {
        String::from_str("\x1b[38;5;11m")
    } else if owned == String::from_str("blue") {
        String::from_str("\x1b[38;5;12m")
    } else if owned == String::from_str("magenta") {
        String::from_str("\x1b[38;5;13m")
    } else if owned == String::from_str("cyan") {
        String::from_str("\x1b[38;5;14m")
    } else if owned == String::from_str("white") {
        String::from_str("\x1b[38;5;15m")
    } else if owned == String::from_str("black") {
        String::from_str("\x1b[38;5;0m")
    } else if owned == String::from_str("grey") {
        String::from_str("\x1b[38;5;245m")
    } else if owned == String::from_str("gray") {
        String::from_str("\x1b[38;5;245m")
    } else if owned == String::from_str("orange") {
        String::from_str("\x1b[38;5;214m")
    } else if owned == String::from_str("amber") {
        String::from_str("\x1b[38;5;220m")
    } else if owned == String::from_str("gold") {
        String::from_str("\x1b[38;5;178m")
    } else if owned == String::from_str("crimson") {
        String::from_str("\x1b[38;5;196m")
    } else if owned == String::from_str("emerald") {
        String::from_str("\x1b[38;5;34m")
    } else if owned == String::from_str("lime") {
        String::from_str("\x1b[38;5;118m")
    } else if owned == String::from_str("azure") {
        String::from_str("\x1b[38;5;39m")
    } else if owned == String::from_str("royal") {
        String::from_str("\x1b[38;5;63m")
    } else if owned == String::from_str("teal") {
        String::from_str("\x1b[38;5;30m")
    } else if owned == String::from_str("purple") {
        String::from_str("\x1b[38;5;129m")
    } else if owned == String::from_str("violet") {
        String::from_str("\x1b[38;5;135m")
    } else if owned == String::from_str("pink") {
        String::from_str("\x1b[38;5;205m")
    } else if owned == String::from_str("silver") {
        String::from_str("\x1b[38;5;250m")
    } else {
        String::new()
    }
}

} // verus!
