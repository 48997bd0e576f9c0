//! What holds of every template, table and color.

use vstd::prelude::*;
use crate::style::escape_char;
use crate::template::is_style;
use crate::template::piece_spec;
use crate::template::render_spec;
use crate::template::render_tokens;
use crate::text::concat_spec;
use crate::text::lemma_split_chars;
use crate::text::lemma_split_concat;
use crate::text::lemma_split_without_delim;
use crate::text::split_spec;
use crate::text::without_char;
use crate::types::Color;

verus! {

/// Whether a text holds no escape character.
pub open spec fn escape_free(s: Seq<char>) -> bool {
    !s.contains(escape_char())
}

/// Whether no text of the table holds an escape character.
pub open spec fn table_escape_free(vars: Map<Seq<char>, Seq<char>>) -> bool {
    forall|name: Seq<char>| vars.contains_key(name) ==> escape_free(#[trigger] vars[name])
}

/// The tokens that are no style directives, in their order.
pub open spec fn without_styles(tokens: Seq<Seq<char>>) -> Seq<Seq<char>>
    decreases tokens.len(),
{
    if tokens.len() == 0 {
        Seq::<Seq<char>>::empty()
    } else if is_style(tokens.last()) {
        without_styles(tokens.drop_last())
    } else {
        without_styles(tokens.drop_last()).push(tokens.last())
    }
}

/// A character of a concatenation is a character of one of its two parts.
proof fn lemma_concat_chars(a: Seq<char>, b: Seq<char>, c: char)
    requires
        (a + b).contains(c),
    ensures
        a.contains(c) || b.contains(c),
{
    let j = choose|j: int| 0 <= j < (a + b).len() && (a + b)[j] == c;
    if j < a.len() {
        assert(a[j] == c);
    } else {
        assert(b[j - a.len()] == c);
    }
}

/// Without colors, tokens that hold no escape character render to a text
/// that holds none, whatever the accent color.
pub proof fn lemma_plain_tokens_escape_free(
    tokens: Seq<Seq<char>>,
    accent: Color,
    vars: Map<Seq<char>, Seq<char>>,
)
    requires
        forall|k: int| 0 <= k < tokens.len() ==> escape_free(#[trigger] tokens[k]),
        table_escape_free(vars),
    ensures
        escape_free(render_tokens(tokens, accent, vars, false)),
    decreases tokens.len(),
{
    if tokens.len() > 0 {
        let front = tokens.drop_last();
        assert forall|k: int| 0 <= k < front.len() implies escape_free(#[trigger] front[k]) by {
            assert(front[k] == tokens[k]);
        }
        lemma_plain_tokens_escape_free(front, accent, vars);
        let head = render_tokens(front, accent, vars, false);
        let tail = piece_spec(tokens.last(), accent, vars, false);
        assert(escape_free(tokens[tokens.len() - 1]));
        assert(escape_free(tail));
        if (head + tail).contains(escape_char()) {
            lemma_concat_chars(head, tail, escape_char());
        }
    }
}

/// With colors off, a line holds no escape character, provided that the
/// template and the texts of the table hold none: every style directive
/// is gone from the output.
pub proof fn lemma_plain_line_escape_free(
    template: Seq<char>,
    accent: Color,
    vars: Map<Seq<char>, Seq<char>>,
)
    requires
        escape_free(template),
        table_escape_free(vars),
    ensures
        escape_free(render_spec(template, accent, vars, false)),
{
    let tokens = split_spec(template, '%');
    assert forall|k: int| 0 <= k < tokens.len() implies escape_free(#[trigger] tokens[k]) by {
        if tokens[k].contains(escape_char()) {
            lemma_split_chars(template, '%', k, escape_char());
        }
    }
    lemma_plain_tokens_escape_free(tokens, accent, vars);
    let body = render_tokens(tokens, accent, vars, false);
    reveal_strlit("\n");
    if (body + "\n"@).contains(escape_char()) {
        lemma_concat_chars(body, "\n"@, escape_char());
        let j = choose|j: int| 0 <= j < "\n"@.len() && "\n"@[j] == escape_char();
        assert("\n"@[j] == '\n');
    }
}

/// Colors touch style directives only: rendering tokens without colors
/// gives what rendering with colors gives once the style directives are
/// taken out. Literal text and variables come out the same either way.
pub proof fn lemma_plain_tokens_drop_styles(
    tokens: Seq<Seq<char>>,
    accent: Color,
    vars: Map<Seq<char>, Seq<char>>,
)
    ensures
        render_tokens(tokens, accent, vars, false) == render_tokens(
            without_styles(tokens),
            accent,
            vars,
            true,
        ),
    decreases tokens.len(),
{
    if tokens.len() > 0 {
        let front = tokens.drop_last();
        lemma_plain_tokens_drop_styles(front, accent, vars);
        let kept = without_styles(front);
        if is_style(tokens.last()) {
            assert(render_tokens(front, accent, vars, false) + Seq::<char>::empty()
                =~= render_tokens(front, accent, vars, false));
        } else {
            assert(kept.push(tokens.last()).drop_last() =~= kept);
        }
    }
}

/// With colors off, a template renders to the line that its tokens other
/// than style directives render to with colors on.
pub proof fn lemma_plain_line_drops_styles(
    template: Seq<char>,
    accent: Color,
    vars: Map<Seq<char>, Seq<char>>,
)
    ensures
        render_spec(template, accent, vars, false) == render_tokens(
            without_styles(split_spec(template, '%')),
            accent,
            vars,
            true,
        ) + "\n"@,
{
    lemma_plain_tokens_drop_styles(split_spec(template, '%'), accent, vars);
}

/// A template without a delimiter, which is neither a style directive nor
/// a name of the table, renders to itself and one line terminator.
pub proof fn lemma_literal_template_verbatim(
    template: Seq<char>,
    accent: Color,
    vars: Map<Seq<char>, Seq<char>>,
    use_colors: bool,
)
    requires
        !template.contains('%'),
        !is_style(template),
        !vars.contains_key(template),
    ensures
        render_spec(template, accent, vars, use_colors) == template + "\n"@,
{
    lemma_split_without_delim(template, '%');
    let tokens = seq![template];
    assert(tokens.drop_last() =~= Seq::<Seq<char>>::empty());
    assert(render_tokens(tokens.drop_last(), accent, vars, use_colors)
        =~= Seq::<char>::empty());
    assert(render_tokens(tokens, accent, vars, use_colors) =~= template);
}

/// Whether a token is neither a style directive nor a name of the table.
pub open spec fn is_literal(token: Seq<char>, vars: Map<Seq<char>, Seq<char>>) -> bool {
    !is_style(token) && !vars.contains_key(token)
}

/// Tokens that are all literal render to themselves, one after the other.
pub proof fn lemma_literal_tokens_concat(
    tokens: Seq<Seq<char>>,
    accent: Color,
    vars: Map<Seq<char>, Seq<char>>,
    use_colors: bool,
)
    requires
        forall|k: int| 0 <= k < tokens.len() ==> is_literal(#[trigger] tokens[k], vars),
    ensures
        render_tokens(tokens, accent, vars, use_colors) == concat_spec(tokens),
    decreases tokens.len(),
{
    if tokens.len() > 0 {
        let front = tokens.drop_last();
        assert forall|k: int| 0 <= k < front.len() implies is_literal(
            #[trigger] front[k],
            vars,
        ) by {
            assert(front[k] == tokens[k]);
        }
        lemma_literal_tokens_concat(front, accent, vars, use_colors);
        assert(is_literal(tokens[tokens.len() - 1], vars));
    }
}

/// A template whose tokens are all literal renders to its own text without
/// the delimiters, and one line terminator.
pub proof fn lemma_literal_template_drops_delimiters(
    template: Seq<char>,
    accent: Color,
    vars: Map<Seq<char>, Seq<char>>,
    use_colors: bool,
)
    requires
        forall|k: int|
            0 <= k < split_spec(template, '%').len() ==> is_literal(
                #[trigger] split_spec(template, '%')[k],
                vars,
            ),
    ensures
        render_spec(template, accent, vars, use_colors) == without_char(template, '%') + "\n"@,
{
    lemma_literal_tokens_concat(split_spec(template, '%'), accent, vars, use_colors);
    lemma_split_concat(template, '%');
}

/// A line ends with a line terminator, after what its tokens render to.
pub proof fn lemma_line_ends_with_terminator(
    template: Seq<char>,
    accent: Color,
    vars: Map<Seq<char>, Seq<char>>,
    use_colors: bool,
)
    ensures
        render_spec(template, accent, vars, use_colors).len() >= 1,
        render_spec(template, accent, vars, use_colors).last() == '\n',
        render_spec(template, accent, vars, use_colors).drop_last() == render_tokens(
            split_spec(template, '%'),
            accent,
            vars,
            use_colors,
        ),
{
    reveal_strlit("\n");
    let body = render_tokens(split_spec(template, '%'), accent, vars, use_colors);
    assert((body + "\n"@).drop_last() =~= body);
}

/// A name that the table does not bind exactly is not replaced: a token
/// that is no style directive and no name of the table stands for itself.
pub proof fn lemma_unbound_token_is_literal(
    token: Seq<char>,
    accent: Color,
    vars: Map<Seq<char>, Seq<char>>,
    use_colors: bool,
)
    requires
        !is_style(token),
        !vars.contains_key(token),
    ensures
        piece_spec(token, accent, vars, use_colors) == token,
{
}

} // verus!
