//! The variable resolver: replaces every `{name}` in a text by the value
//! that the variable store binds to `name`.

use crate::engine::variables::VariableManager;
use crate::parser::{ParseError, ParseErrorView};
use crate::text::{from_chars, push_char, to_chars};
use vstd::prelude::*;

verus! {

/// The index of the first `}` of `text` at or after `from`, or the length of
/// `text` where there is none.
pub open spec fn closing_brace(text: Seq<char>, from: int) -> int
    decreases text.len() - from,
{
    if from >= text.len() {
        text.len() as int
    } else if text[from] == '}' {
        from
    } else {
        closing_brace(text, from + 1)
    }
}

/// `text` put in front of what `rest` resolved to; the error of `rest`
/// where it has one.
pub open spec fn after(text: Seq<char>, rest: Result<Seq<char>, ParseErrorView>) -> Result<
    Seq<char>,
    ParseErrorView,
> {
    match rest {
        Ok(tail) => Ok(text + tail),
        Err(error) => Err(error),
    }
}

/// What `text` resolves to from the index `from` on.
///
/// A character other than `{` stands for itself. A `{` opens a reference:
/// the name is all that stands before the next `}`, and the reference
/// stands for the value bound to that name. What a reference stands for is
/// not read again. A reference to a name that is not bound is an error, and
/// the first such reference decides. A `{` that no `}` follows stands for
/// itself, and so does all that comes after it.
pub open spec fn resolve_from(text: Seq<char>, from: int, bindings: Map<Seq<char>, Seq<char>>)
    -> Result<Seq<char>, ParseErrorView>
    decreases text.len() - from,
{
    if from < 0 || from >= text.len() {
        Ok(Seq::empty())
    } else if text[from] != '{' {
        after(seq![text[from]], resolve_from(text, from + 1, bindings))
    } else {
        proof {
            lemma_closing_brace(text, from + 1);
        }
        let close = closing_brace(text, from + 1);
        if close >= text.len() {
            Ok(text.skip(from))
        } else {
            let name = text.subrange(from + 1, close);
            if bindings.contains_key(name) {
                after(bindings[name], resolve_from(text, close + 1, bindings))
            } else {
                Err(ParseErrorView::UnresolvedVariable(name))
            }
        }
    }
}

/// What `text` resolves to under `bindings`.
pub open spec fn spec_resolve(text: Seq<char>, bindings: Map<Seq<char>, Seq<char>>) -> Result<
    Seq<char>,
    ParseErrorView,
> {
    resolve_from(text, 0, bindings)
}

/// The model of what the resolver returns.
pub open spec fn resolved_view(resolved: Result<String, ParseError>) -> Result<
    Seq<char>,
    ParseErrorView,
> {
    match resolved {
        Ok(text) => Ok(text@),
        Err(error) => Err(error@),
    }
}

/// `closing_brace` finds the first `}` at or after `from`.
pub proof fn lemma_closing_brace(text: Seq<char>, from: int)
    requires
        0 <= from <= text.len(),
    ensures
        from <= closing_brace(text, from) <= text.len(),
        closing_brace(text, from) < text.len() ==> text[closing_brace(text, from)] == '}',
        forall|j: int| from <= j < closing_brace(text, from) ==> text[j] != '}',
    decreases text.len() - from,
{
    if from < text.len() && text[from] != '}' {
        lemma_closing_brace(text, from + 1);
    }
}

/// A text without `{` resolves to itself, from any index on.
pub proof fn lemma_resolve_plain_from(
    text: Seq<char>,
    from: int,
    bindings: Map<Seq<char>, Seq<char>>,
)
    requires
        0 <= from <= text.len(),
        !text.contains('{'),
    ensures
        resolve_from(text, from, bindings) == Ok::<Seq<char>, ParseErrorView>(text.skip(from)),
    decreases text.len() - from,
{
    if from < text.len() {
        assert(text[from] != '{');
        lemma_resolve_plain_from(text, from + 1, bindings);
        assert(seq![text[from]] + text.skip(from + 1) =~= text.skip(from));
    } else {
        assert(text.skip(from) =~= Seq::<char>::empty());
    }
}

/// A text without `{` resolves to itself, whatever is bound.
pub proof fn lemma_resolve_plain(text: Seq<char>, bindings: Map<Seq<char>, Seq<char>>)
    requires
        !text.contains('{'),
    ensures
        spec_resolve(text, bindings) == Ok::<Seq<char>, ParseErrorView>(text),
{
    lemma_resolve_plain_from(text, 0, bindings);
    assert(text.skip(0) =~= text);
}

/// A reference on its own, `{name}`, resolves to exactly the value bound to
/// `name`, and fails as unresolved where `name` is not bound. The name
/// holds no `}`: a reference ends at the first one.
pub proof fn lemma_resolve_reference(name: Seq<char>, bindings: Map<Seq<char>, Seq<char>>)
    requires
        !name.contains('}'),
    ensures
        bindings.contains_key(name) ==> spec_resolve(seq!['{'] + name + seq!['}'], bindings)
            == Ok::<Seq<char>, ParseErrorView>(bindings[name]),
        !bindings.contains_key(name) ==> spec_resolve(seq!['{'] + name + seq!['}'], bindings)
            == Err::<Seq<char>, ParseErrorView>(ParseErrorView::UnresolvedVariable(name)),
{
    let text = seq!['{'] + name + seq!['}'];
    let end = name.len() as int + 1;
    lemma_closing_brace(text, 1);
    let close = closing_brace(text, 1);
    assert(text[end] == '}');
    assert(close == end) by {
        if close < end {
            assert(text[close] == name[close - 1]);
            assert(name.contains(name[close - 1]));
        }
    }
    assert(text.subrange(1, close) =~= name);
    assert(resolve_from(text, close + 1, bindings) == Ok::<Seq<char>, ParseErrorView>(
        Seq::empty(),
    ));
    if bindings.contains_key(name) {
        assert(bindings[name] + Seq::<char>::empty() =~= bindings[name]);
    }
}

/// Replaces every `{name}` in `input` by the value bound to `name`.
///
/// Fails with `UnresolvedVariable` at the first reference to a name that is
/// not bound. A text without `{` comes back unchanged.
pub fn resolve_variables(input: &str, var_manager: &VariableManager) -> (resolved: Result<
    String,
    ParseError,
>)
    ensures
        resolved_view(resolved) == spec_resolve(input@, var_manager@),
        !input@.contains('{') ==> resolved_view(resolved) == Ok::<Seq<char>, ParseErrorView>(
            input@,
        ),
{
    let chars = to_chars(input);
    let mut resolved = String::new();
    let mut i: usize = 0;
    while i < chars.len()
        invariant
            i <= chars.len(),
            chars@ == input@,
            spec_resolve(input@, var_manager@) == after(
                resolved@,
                resolve_from(chars@, i as int, var_manager@),
            ),
        decreases chars.len() - i,
    {
        let c = chars[i];
        if c != '{' {
            let ghost before = resolved@;
            push_char(&mut resolved, c);
            proof {
                if let Ok(tail) = resolve_from(chars@, i + 1, var_manager@) {
                    assert(before + (seq![c] + tail) =~= resolved@ + tail);
                }
            }
            i += 1;
        } else {
            let mut close: usize = i + 1;
            while close < chars.len() && chars[close] != '}'
                invariant
                    i < close <= chars.len(),
                    closing_brace(chars@, i + 1) == closing_brace(chars@, close as int),
                decreases chars.len() - close,
            {
                close += 1;
            }
            if close >= chars.len() {
                let rest = from_chars(&chars, i, chars.len());
                resolved.append(rest.as_str());
                proof {
                    assert(chars@.skip(i as int) =~= chars@.subrange(
                        i as int,
                        chars.len() as int,
                    ));
                    assert(input@[i as int] == '{');
                }
                return Ok(resolved);
            }
            let name = from_chars(&chars, i + 1, close);
            match var_manager.get(name.as_str()) {
                Some(value) => {
                    let ghost before = resolved@;
                    resolved.append(value.as_str());
                    proof {
                        if let Ok(tail) = resolve_from(chars@, close + 1, var_manager@) {
                            assert(before + (value@ + tail) =~= resolved@ + tail);
                        }
                    }
                },
                None => {
                    proof {
                        assert(input@[i as int] == '{');
                    }
                    return Err(ParseError::UnresolvedVariable(name));
                },
            }
            i = close + 1;
        }
    }
    proof {
        if !input@.contains('{') {
            lemma_resolve_plain(input@, var_manager@);
        }
        assert(resolved@ + Seq::<char>::empty() =~= resolved@);
    }
    Ok(resolved)
}

} // verus!
