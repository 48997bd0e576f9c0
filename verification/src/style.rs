//! Style directives and the ANSI escape sequences they stand for.

use vstd::prelude::*;
use crate::text::same_text;
use crate::types::Color;

verus! {

/// The character that opens an escape sequence.
pub open spec fn escape_char() -> char {
    '\x1b'
}

/// The numeric code of one style key. `accent` is the foreground code of the
/// accent color; a key that is not known counts as `reset`.
pub open spec fn style_code_spec(accent: Color, key: Seq<char>) -> Seq<char> {
    if key == "accent"@ {
        "3"@ + accent.code_spec()
    } else if key == "reset"@ {
        "0"@
    } else if key == "dark"@ {
        "90"@
    } else if key == "bold"@ {
        "1"@
    } else if key == "italic"@ {
        "3"@
    } else if key == "under"@ {
        "4"@
    } else {
        "0"@
    }
}

/// The codes of the keys, in their order, with a `;` between neighbours.
pub open spec fn style_codes_spec(accent: Color, keys: Seq<Seq<char>>) -> Seq<char>
    decreases keys.len(),
{
    if keys.len() == 0 {
        Seq::<char>::empty()
    } else if keys.len() == 1 {
        style_code_spec(accent, keys[0])
    } else {
        style_codes_spec(accent, keys.drop_last()) + ";"@ + style_code_spec(accent, keys.last())
    }
}

/// The escape sequence for a list of style keys: `ESC[`, the codes, `m`.
pub open spec fn style_spec(accent: Color, keys: Seq<Seq<char>>) -> Seq<char> {
    "\x1b["@ + style_codes_spec(accent, keys) + "m"@
}

/// The numeric code of one style key.
pub fn style_code(accent: Color, key: &str) -> (r: String)
    ensures
        r@ == style_code_spec(accent, key@),
{
    if same_text(key, "accent") {
        String::from_str("3").concat(accent.code())
    } else if same_text(key, "reset") {
        String::from_str("0")
    } else if same_text(key, "dark") {
        String::from_str("90")
    } else if same_text(key, "bold") {
        String::from_str("1")
    } else if same_text(key, "italic") {
        String::from_str("3")
    } else if same_text(key, "under") {
        String::from_str("4")
    } else {
        String::from_str("0")
    }
}

} // verus!
