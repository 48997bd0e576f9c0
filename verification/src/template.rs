//! What a template means: how each token is resolved and what a line is.

use vstd::prelude::*;
use crate::style::style_spec;
use crate::text::split_spec;
use crate::types::Color;

verus! {

/// Whether a token is a style directive.
pub open spec fn is_style(token: Seq<char>) -> bool {
    "style:"@.is_prefix_of(token)
}

/// The keys of a style directive: what follows the prefix, split on `;`.
pub open spec fn style_keys(token: Seq<char>) -> Seq<Seq<char>> {
    split_spec(token.subrange("style:"@.len() as int, token.len() as int), ';')
}

/// What one token contributes to the line.
///
/// A style directive gives its escape sequence, or nothing without colors.
/// A token that is exactly a name of the table gives the text bound to it.
/// Any other token stands for itself.
pub open spec fn piece_spec(
    token: Seq<char>,
    accent: Color,
    vars: Map<Seq<char>, Seq<char>>,
    use_colors: bool,
) -> Seq<char> {
    if is_style(token) {
        if use_colors {
            style_spec(accent, style_keys(token))
        } else {
            Seq::<char>::empty()
        }
    } else if vars.contains_key(token) {
        vars[token]
    } else {
        token
    }
}

/// The contributions of the tokens, one after the other.
pub open spec fn render_tokens(
    tokens: Seq<Seq<char>>,
    accent: Color,
    vars: Map<Seq<char>, Seq<char>>,
    use_colors: bool,
) -> Seq<char>
    decreases tokens.len(),
{
    if tokens.len() == 0 {
        Seq::<char>::empty()
    } else {
        render_tokens(tokens.drop_last(), accent, vars, use_colors) + piece_spec(
            tokens.last(),
            accent,
            vars,
            use_colors,
        )
    }
}

/// The line that a template renders to: its `%`-separated tokens resolved in
/// order, then one line terminator.
pub open spec fn render_spec(
    template: Seq<char>,
    accent: Color,
    vars: Map<Seq<char>, Seq<char>>,
    use_colors: bool,
) -> Seq<char> {
    render_tokens(split_spec(template, '%'), accent, vars, use_colors) + "\n"@
}

/// The table of one emission: the severity field, the module name, the time
/// and the message, under the names `L`, `Mod`, `T` and `Msg`.
pub open spec fn call_table(
    level_field: Seq<char>,
    module_name: Seq<char>,
    time: Seq<char>,
    message: Seq<char>,
) -> Map<Seq<char>, Seq<char>> {
    Map::<Seq<char>, Seq<char>>::empty().insert("L"@, level_field).insert(
        "Mod"@,
        module_name,
    ).insert("T"@, time).insert("Msg"@, message)
}

} // verus!
