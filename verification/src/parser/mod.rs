//! The parser: from a line of text to the stages of a pipeline.

pub mod variable_resolver;

use crate::engine::types::{stages_view, PipelineCommand, StageView};
use crate::engine::variables::VariableManager;
use crate::parser::variable_resolver::{resolve_variables, spec_resolve};
use crate::text::{
    is_blank, is_whitespace, push_char, spec_is_blank, spec_is_whitespace, spec_join, to_chars,
};
use vstd::prelude::*;

verus! {

/// Why a line could not be parsed.
#[derive(Debug)]
pub enum ParseError {
    /// The line holds no stage at all.
    NoCommandEntered,
    /// A stage holds no token.
    EmptyCommand,
    /// An argument refers to a variable of this name, which is not bound.
    UnresolvedVariable(String),
}

/// The model of a [`ParseError`].
pub enum ParseErrorView {
    NoCommandEntered,
    EmptyCommand,
    UnresolvedVariable(Seq<char>),
}

impl ParseErrorView {
    /// The message that tells a reader of the error.
    pub open spec fn message(self) -> Seq<char> {
        match self {
            ParseErrorView::NoCommandEntered => "No command entered."@,
            ParseErrorView::EmptyCommand => "Empty command in pipeline."@,
            ParseErrorView::UnresolvedVariable(name) => "Variable not found: {"@ + name + "}"@,
        }
    }
}

impl View for ParseError {
    type V = ParseErrorView;

    open spec fn view(&self) -> ParseErrorView {
        match self {
            ParseError::NoCommandEntered => ParseErrorView::NoCommandEntered,
            ParseError::EmptyCommand => ParseErrorView::EmptyCommand,
            ParseError::UnresolvedVariable(name) => ParseErrorView::UnresolvedVariable(name@),
        }
    }
}

impl ParseError {
    /// The message that tells a reader of the error.
    pub fn message(&self) -> (text: String)
        ensures
            text@ == self@.message(),
    {
        match self {
            ParseError::NoCommandEntered => "No command entered.".to_owned(),
            ParseError::EmptyCommand => "Empty command in pipeline.".to_owned(),
            ParseError::UnresolvedVariable(name) => {
                let mut text = "Variable not found: {".to_owned();
                text.append(name.as_str());
                text.append("}");
                text
            },
        }
    }
}

/// Where the tokenizer stands after some characters of a stage.
pub struct Scan {
    /// The tokens that are complete.
    pub tokens: Seq<Seq<char>>,
    /// The characters of the token that is being read.
    pub current: Seq<char>,
    /// Whether the last character read stands inside double quotes.
    pub quoted: bool,
}

impl Scan {
    /// The state before the first character.
    pub open spec fn start() -> Scan {
        Scan { tokens: Seq::empty(), current: Seq::empty(), quoted: false }
    }

    /// The state with the token that is being read closed, if it holds
    /// anything.
    pub open spec fn close_token(self) -> Scan {
        if self.current.len() > 0 {
            Scan { tokens: self.tokens.push(self.current), current: Seq::empty(), ..self }
        } else {
            self
        }
    }

    /// The state after the character `c`.
    ///
    /// A double quote opens or closes a quoted span and is itself dropped; a
    /// closing one ends the token. White space outside quotes ends the
    /// token. Any other character belongs to the token.
    pub open spec fn step(self, c: char) -> Scan {
        if c == '"' {
            if self.quoted {
                Scan { quoted: false, ..self.close_token() }
            } else {
                Scan { quoted: true, ..self }
            }
        } else if spec_is_whitespace(c) && !self.quoted {
            self.close_token()
        } else {
            Scan { current: self.current.push(c), ..self }
        }
    }
}

/// The state of the tokenizer after all of `text`.
pub open spec fn scan(text: Seq<char>) -> Scan
    decreases text.len(),
{
    if text.len() == 0 {
        Scan::start()
    } else {
        scan(text.drop_last()).step(text.last())
    }
}

/// The tokens of a stage: its runs of characters between white space, with
/// quoted spans kept whole and their quotes taken off.
pub open spec fn tokens(text: Seq<char>) -> Seq<Seq<char>> {
    scan(text).close_token().tokens
}

/// Where the splitter stands after some characters of a line.
pub struct Split {
    /// The segments that a `|` has ended.
    pub done: Seq<Seq<char>>,
    /// The characters of the segment that is being read.
    pub current: Seq<char>,
    /// Whether the last character read stands inside double quotes.
    pub quoted: bool,
}

impl Split {
    /// The state before the first character.
    pub open spec fn start() -> Split {
        Split { done: Seq::empty(), current: Seq::empty(), quoted: false }
    }

    /// The state after the character `c`: a `|` outside quotes ends the
    /// segment, a double quote switches the quoting and stays in the
    /// segment, as any other character does.
    pub open spec fn step(self, c: char) -> Split {
        if c == '|' && !self.quoted {
            Split { done: self.done.push(self.current), current: Seq::empty(), ..self }
        } else if c == '"' {
            Split { current: self.current.push(c), quoted: !self.quoted, ..self }
        } else {
            Split { current: self.current.push(c), ..self }
        }
    }
}

/// The state of the splitter after all of `line`.
pub open spec fn split(line: Seq<char>) -> Split
    decreases line.len(),
{
    if line.len() == 0 {
        Split::start()
    } else {
        split(line.drop_last()).step(line.last())
    }
}

/// The segments of a line: what stands between its `|` outside quotes.
pub open spec fn segments(line: Seq<char>) -> Seq<Seq<char>> {
    split(line).done.push(split(line).current)
}

/// A state of the tokenizer in which no token is empty and no token holds a
/// double quote.
pub open spec fn clean(state: Scan) -> bool {
    &&& !state.current.contains('"')
    &&& forall|i: int|
        0 <= i < state.tokens.len() ==> (#[trigger] state.tokens[i]).len() > 0
            && !state.tokens[i].contains('"')
}

/// The tokenizer stays in clean states.
proof fn lemma_scan_clean(text: Seq<char>)
    ensures
        clean(scan(text)),
        clean(scan(text).close_token()),
    decreases text.len(),
{
    if text.len() > 0 {
        lemma_scan_clean(text.drop_last());
        let before = scan(text.drop_last());
        let c = text.last();
        let now = before.step(c);
        assert(clean(before.close_token()));
        if c != '"' && !(spec_is_whitespace(c) && !before.quoted) {
            assert(!now.current.contains('"')) by {
                if now.current.contains('"') {
                    let i = choose|i: int| 0 <= i < now.current.len() && now.current[i] == '"';
                    if i < before.current.len() {
                        assert(before.current[i] == '"');
                    }
                }
            }
        }
        assert(clean(now));
    }
    let end = scan(text);
    if end.current.len() > 0 {
        let closed = end.close_token();
        assert forall|i: int| 0 <= i < closed.tokens.len() implies (#[trigger] closed.tokens[i]).len()
            > 0 && !closed.tokens[i].contains('"') by {
            if i < end.tokens.len() {
                assert(closed.tokens[i] == end.tokens[i]);
            }
        }
    }
}

/// No token is empty, and no token holds a double quote: the quotes around
/// a span are taken off.
pub proof fn lemma_tokens_are_words(text: Seq<char>)
    ensures
        forall|i: int|
            0 <= i < tokens(text).len() ==> (#[trigger] tokens(text)[i]).len() > 0 && !tokens(
                text,
            )[i].contains('"'),
{
    lemma_scan_clean(text);
}

/// The segments of a line, written one after the other with a `|` between
/// neighbours, are the line: splitting loses no character.
pub proof fn lemma_segments_join(line: Seq<char>)
    ensures
        spec_join(segments(line), seq!['|']) == line,
    decreases line.len(),
{
    let bar = seq!['|'];
    if line.len() == 0 {
        assert(segments(line) =~= seq![Seq::<char>::empty()]);
    } else {
        let front = line.drop_last();
        lemma_segments_join(front);
        let before = split(front);
        let c = line.last();
        let old_parts = before.done.push(before.current);
        assert(old_parts.drop_last() =~= before.done);
        assert(line =~= front.push(c));
        if c == '|' && !before.quoted {
            let parts = old_parts.push(Seq::<char>::empty());
            assert(segments(line) =~= parts);
            assert(parts.drop_last() =~= old_parts);
            assert(spec_join(parts, bar) =~= spec_join(old_parts, bar) + bar);
            assert(front + bar =~= line);
        } else {
            let parts = before.done.push(before.current.push(c));
            assert(segments(line) =~= parts);
            assert(parts.drop_last() =~= before.done);
            if before.done.len() == 0 {
                assert(spec_join(parts, bar) =~= before.current.push(c));
                assert(spec_join(old_parts, bar) =~= before.current);
            } else {
                assert(spec_join(parts, bar) =~= (spec_join(before.done, bar) + bar
                    + before.current).push(c));
            }
        }
    }
}

/// What the arguments resolve to, one by one. The first argument that fails
/// decides.
pub open spec fn resolve_all(arguments: Seq<Seq<char>>, bindings: Map<Seq<char>, Seq<char>>)
    -> Result<Seq<Seq<char>>, ParseErrorView>
    decreases arguments.len(),
{
    if arguments.len() == 0 {
        Ok(Seq::empty())
    } else {
        match resolve_all(arguments.drop_last(), bindings) {
            Err(error) => Err(error),
            Ok(front) => match spec_resolve(arguments.last(), bindings) {
                Err(error) => Err(error),
                Ok(last) => Ok(front.push(last)),
            },
        }
    }
}

/// The stage that a segment of a line describes: its first token is the
/// name of the command, taken as it stands, and its other tokens are the
/// arguments, with their variable references resolved.
pub open spec fn spec_parse_single_command(text: Seq<char>, bindings: Map<Seq<char>, Seq<char>>)
    -> Result<StageView, ParseErrorView> {
    let found = tokens(text);
    if found.len() == 0 {
        Err(ParseErrorView::EmptyCommand)
    } else {
        match resolve_all(found.skip(1), bindings) {
            Err(error) => Err(error),
            Ok(args) => Ok(StageView { name: found[0], args }),
        }
    }
}

/// The stages that a list of segments describes. A blank segment is left
/// out. The first segment that fails decides.
pub open spec fn parse_segments(parts: Seq<Seq<char>>, bindings: Map<Seq<char>, Seq<char>>)
    -> Result<Seq<StageView>, ParseErrorView>
    decreases parts.len(),
{
    if parts.len() == 0 {
        Ok(Seq::empty())
    } else {
        match parse_segments(parts.drop_last(), bindings) {
            Err(error) => Err(error),
            Ok(front) => if spec_is_blank(parts.last()) {
                Ok(front)
            } else {
                match spec_parse_single_command(parts.last(), bindings) {
                    Err(error) => Err(error),
                    Ok(stage) => Ok(front.push(stage)),
                }
            },
        }
    }
}

/// The pipeline that a line describes: the stages of its segments that are
/// not blank, of which there has to be one.
pub open spec fn spec_parse_pipeline(line: Seq<char>, bindings: Map<Seq<char>, Seq<char>>)
    -> Result<Seq<StageView>, ParseErrorView> {
    match parse_segments(segments(line), bindings) {
        Err(error) => Err(error),
        Ok(stages) => if stages.len() == 0 {
            Err(ParseErrorView::NoCommandEntered)
        } else {
            Ok(stages)
        },
    }
}

/// The model of what parsing one stage returns.
pub open spec fn stage_result_view(parsed: Result<PipelineCommand, ParseError>) -> Result<
    StageView,
    ParseErrorView,
> {
    match parsed {
        Ok(stage) => Ok(stage@),
        Err(error) => Err(error@),
    }
}

/// The model of what parsing a line returns.
pub open spec fn pipeline_result_view(parsed: Result<Vec<PipelineCommand>, ParseError>) -> Result<
    Seq<StageView>,
    ParseErrorView,
> {
    match parsed {
        Ok(stages) => Ok(stages_view(stages@)),
        Err(error) => Err(error@),
    }
}

/// The segments as sequences of characters.
pub open spec fn segments_view(parts: Seq<Vec<char>>) -> Seq<Seq<char>> {
    Seq::new(parts.len(), |i: int| parts[i]@)
}

/// The tokens of `chars`.
fn tokens_of(chars: &Vec<char>) -> (found: Vec<String>)
    ensures
        found.deep_view() == tokens(chars@),
{
    let mut found: Vec<String> = Vec::new();
    let mut current = String::new();
    let mut quoted = false;
    let mut i: usize = 0;
    assert(chars@.take(0) =~= Seq::<char>::empty());
    assert(found.deep_view() =~= Seq::<Seq<char>>::empty());
    while i < chars.len()
        invariant
            i <= chars.len(),
            scan(chars@.take(i as int)) == (Scan {
                tokens: found.deep_view(),
                current: current@,
                quoted,
            }),
        decreases chars.len() - i,
    {
        let c = chars[i];
        proof {
            let next = chars@.take(i + 1);
            assert(next.drop_last() =~= chars@.take(i as int));
            assert(next.last() == c);
        }
        let ghost before = found.deep_view();
        let ghost word = current@;
        if c == '"' {
            if quoted && current.unicode_len() > 0 {
                found.push(current);
                current = String::new();
                assert(found.deep_view() =~= before.push(word));
            }
            quoted = !quoted;
        } else if is_whitespace(c) && !quoted {
            if current.unicode_len() > 0 {
                found.push(current);
                current = String::new();
                assert(found.deep_view() =~= before.push(word));
            }
        } else {
            push_char(&mut current, c);
        }
        i += 1;
    }
    assert(chars@.take(i as int) =~= chars@);
    let ghost before = found.deep_view();
    let ghost word = current@;
    if current.unicode_len() > 0 {
        found.push(current);
        assert(found.deep_view() =~= before.push(word));
    }
    found
}

/// The segments of `chars`.
fn split_segments(chars: &Vec<char>) -> (parts: Vec<Vec<char>>)
    ensures
        segments_view(parts@) == segments(chars@),
{
    let mut parts: Vec<Vec<char>> = Vec::new();
    let mut current: Vec<char> = Vec::new();
    let mut quoted = false;
    let mut i: usize = 0;
    assert(chars@.take(0) =~= Seq::<char>::empty());
    assert(segments_view(parts@) =~= Seq::<Seq<char>>::empty());
    while i < chars.len()
        invariant
            i <= chars.len(),
            split(chars@.take(i as int)) == (Split {
                done: segments_view(parts@),
                current: current@,
                quoted,
            }),
        decreases chars.len() - i,
    {
        let c = chars[i];
        proof {
            let next = chars@.take(i + 1);
            assert(next.drop_last() =~= chars@.take(i as int));
            assert(next.last() == c);
        }
        let ghost before = segments_view(parts@);
        let ghost piece = current@;
        if c == '|' && !quoted {
            parts.push(current);
            current = Vec::new();
            assert(segments_view(parts@) =~= before.push(piece));
        } else {
            if c == '"' {
                quoted = !quoted;
            }
            current.push(c);
        }
        i += 1;
    }
    assert(chars@.take(i as int) =~= chars@);
    let ghost before = segments_view(parts@);
    let ghost piece = current@;
    parts.push(current);
    assert(segments_view(parts@) =~= before.push(piece));
    parts
}

/// Parses the characters of one stage.
fn parse_stage(chars: &Vec<char>, var_manager: &VariableManager) -> (parsed: Result<
    PipelineCommand,
    ParseError,
>)
    ensures
        stage_result_view(parsed) == spec_parse_single_command(chars@, var_manager@),
{
    let mut found = tokens_of(chars);
    if found.len() == 0 {
        return Err(ParseError::EmptyCommand);
    }
    let ghost raw = found.deep_view();
    let mut args: Vec<String> = Vec::new();
    let mut i: usize = 1;
    assert(raw.skip(1).take(0) =~= Seq::<Seq<char>>::empty());
    assert(args.deep_view() =~= Seq::<Seq<char>>::empty());
    while i < found.len()
        invariant
            1 <= i <= found.len(),
            found.deep_view() == raw,
            raw == tokens(chars@),
            resolve_all(raw.skip(1).take(i - 1), var_manager@) == Ok::<
                Seq<Seq<char>>,
                ParseErrorView,
            >(args.deep_view()),
        decreases found.len() - i,
    {
        proof {
            let next = raw.skip(1).take(i as int);
            assert(next.drop_last() =~= raw.skip(1).take(i - 1));
            assert(next.last() == found@[i as int]@);
        }
        let ghost before = args.deep_view();
        match resolve_variables(found[i].as_str(), var_manager) {
            Ok(resolved) => {
                args.push(resolved);
                assert(args.deep_view() =~= before.push(resolved@));
            },
            Err(error) => {
                proof {
                    assert(resolve_all(raw.skip(1).take(i as int), var_manager@) is Err);
                    lemma_resolve_all_fails(raw.skip(1), i as int, var_manager@);
                }
                return Err(error);
            },
        }
        i += 1;
    }
    assert(raw.skip(1).take(i - 1) =~= raw.skip(1));
    let name = found.swap_remove(0);
    Ok(PipelineCommand { name, args })
}

/// Where a front part of the arguments fails to resolve, so do all of them,
/// with the same error.
proof fn lemma_resolve_all_fails(
    arguments: Seq<Seq<char>>,
    n: int,
    bindings: Map<Seq<char>, Seq<char>>,
)
    requires
        0 <= n <= arguments.len(),
        resolve_all(arguments.take(n), bindings) is Err,
    ensures
        resolve_all(arguments, bindings) == resolve_all(arguments.take(n), bindings),
    decreases arguments.len() - n,
{
    if n < arguments.len() {
        let next = arguments.take(n + 1);
        assert(next.drop_last() =~= arguments.take(n));
        lemma_resolve_all_fails(arguments, n + 1, bindings);
    } else {
        assert(arguments.take(n) =~= arguments);
    }
}

/// Where a front part of the segments fails to parse, so do all of them,
/// with the same error.
proof fn lemma_parse_segments_fails(
    parts: Seq<Seq<char>>,
    n: int,
    bindings: Map<Seq<char>, Seq<char>>,
)
    requires
        0 <= n <= parts.len(),
        parse_segments(parts.take(n), bindings) is Err,
    ensures
        parse_segments(parts, bindings) == parse_segments(parts.take(n), bindings),
    decreases parts.len() - n,
{
    if n < parts.len() {
        let next = parts.take(n + 1);
        assert(next.drop_last() =~= parts.take(n));
        lemma_parse_segments_fails(parts, n + 1, bindings);
    } else {
        assert(parts.take(n) =~= parts);
    }
}

/// Splits the text of one stage into its tokens: the runs of characters
/// between white space, with every span in double quotes kept whole and
/// without its quotes.
pub fn tokenize(text: &str) -> (found: Vec<String>)
    ensures
        found.deep_view() == tokens(text@),
{
    let chars = to_chars(text);
    tokens_of(&chars)
}

/// Parses one stage of a pipeline: splits `command_str` into tokens, takes
/// the first as the name of the command and resolves the variable
/// references of the others.
///
/// Fails with `EmptyCommand` where the text holds no token, and with
/// `UnresolvedVariable` at the first argument that refers to a name that is
/// not bound.
pub fn parse_single_command(command_str: &str, var_manager: &VariableManager) -> (parsed: Result<
    PipelineCommand,
    ParseError,
>)
    ensures
        stage_result_view(parsed) == spec_parse_single_command(command_str@, var_manager@),
{
    let chars = to_chars(command_str);
    parse_stage(&chars, var_manager)
}

/// Parses a line into the stages of a pipeline.
///
/// The line is split at every `|` outside double quotes; segments of white
/// space are left out, and each other segment is parsed as one stage.
/// Fails with `NoCommandEntered` where no stage is left, and with the error
/// of the first stage that fails.
pub fn parse_pipeline(command_line: &str, var_manager: &VariableManager) -> (parsed: Result<
    Vec<PipelineCommand>,
    ParseError,
>)
    ensures
        pipeline_result_view(parsed) == spec_parse_pipeline(command_line@, var_manager@),
{
    let chars = to_chars(command_line);
    let parts = split_segments(&chars);
    let mut pipeline: Vec<PipelineCommand> = Vec::new();
    let mut i: usize = 0;
    let ghost all = segments_view(parts@);
    assert(all.take(0) =~= Seq::<Seq<char>>::empty());
    assert(stages_view(pipeline@) =~= Seq::<StageView>::empty());
    while i < parts.len()
        invariant
            i <= parts.len(),
            all == segments_view(parts@),
            all == segments(command_line@),
            parse_segments(all.take(i as int), var_manager@) == Ok::<
                Seq<StageView>,
                ParseErrorView,
            >(stages_view(pipeline@)),
        decreases parts.len() - i,
    {
        proof {
            let next = all.take(i + 1);
            assert(next.drop_last() =~= all.take(i as int));
            assert(next.last() == parts@[i as int]@);
        }
        if !is_blank(&parts[i]) {
            let ghost before = stages_view(pipeline@);
            match parse_stage(&parts[i], var_manager) {
                Ok(stage) => {
                    pipeline.push(stage);
                    assert(stages_view(pipeline@) =~= before.push(stage@));
                },
                Err(error) => {
                    proof {
                        assert(parse_segments(all.take(i + 1), var_manager@) is Err);
                        lemma_parse_segments_fails(all, i + 1, var_manager@);
                    }
                    return Err(error);
                },
            }
        }
        i += 1;
    }
    assert(all.take(i as int) =~= all);
    if pipeline.len() == 0 {
        return Err(ParseError::NoCommandEntered);
    }
    Ok(pipeline)
}

} // verus!
