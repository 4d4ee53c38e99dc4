//! Completion of the word under the cursor, for a line editor.

use crate::text::{starts_with, to_chars};
use vstd::prelude::*;
use vstd::string::StringSliceAdditionalSpecFns;
use vstd::utf8::{decode_utf8, is_char_boundary};

verus! {

/// Whether the byte `b` is a character that ends a word: a space, a tab, a
/// `|` or a double quote.
pub open spec fn is_break_byte(b: u8) -> bool {
    b == 32 || b == 9 || b == 124 || b == 34
}

/// Whether `c` ends a word.
pub open spec fn spec_is_word_break(c: char) -> bool {
    c == ' ' || c == '\t' || c == '|' || c == '"'
}

/// Whether `c` ends a word.
#[verifier::when_used_as_spec(spec_is_word_break)]
pub fn is_word_break(c: char) -> (b: bool)
    ensures
        b == spec_is_word_break(c),
        b == (c as u32 <= 127 && is_break_byte(c as u8)),
{
    c == ' ' || c == '\t' || c == '|' || c == '"'
}

/// Where the word begins that ends before the byte `pos` of a line with the
/// bytes `bytes`: behind the last byte before `pos` that ends a word, or at
/// the start of the line.
pub open spec fn word_start(bytes: Seq<u8>, pos: int) -> int
    decreases pos,
{
    if pos <= 0 {
        0
    } else if pos <= bytes.len() && is_break_byte(bytes[pos - 1]) {
        pos
    } else {
        word_start(bytes, pos - 1)
    }
}

/// The word that ends before the byte `pos` of `line`, and the index of the
/// byte at which it begins.
///
/// Trusted: this is `rustyline::completion::extract_word`, called without
/// an escape character. It looks backward from `pos` for the nearest
/// character that ends a word, and returns the index behind it (0 where it
/// finds none) with the text from there to `pos`. The characters that end a
/// word are single bytes, so the search is stated over the bytes of the
/// line. `pos` has to lie on the boundary of a character: the function
/// slices the line there.
#[verifier::external_body]
fn word_before(line: &str, pos: usize) -> (found: (usize, &str))
    requires
        is_char_boundary(line.spec_bytes(), pos as int),
    ensures
        found.0 == word_start(line.spec_bytes(), pos as int),
        found.1.spec_bytes() == line.spec_bytes().subrange(found.0 as int, pos as int),
{
    rustyline::completion::extract_word(line, pos, None, is_word_break)
}

/// Those of `items` that begin with `word`, in their order.
pub open spec fn matching(items: Seq<Seq<char>>, word: Seq<char>) -> Seq<Seq<char>>
    decreases items.len(),
{
    if items.len() == 0 {
        Seq::empty()
    } else if word.is_prefix_of(items.last()) {
        matching(items.drop_last(), word).push(items.last())
    } else {
        matching(items.drop_last(), word)
    }
}

/// The names of variables as they are written in a reference: each in
/// braces.
pub open spec fn references(variables: Seq<Seq<char>>) -> Seq<Seq<char>> {
    Seq::new(variables.len(), |i: int| "{"@ + variables[i] + "}"@)
}

/// The candidates for `word`: the commands that begin with it and, where
/// it begins with `{`, the references to variables that begin with it.
pub open spec fn spec_candidates(
    commands: Seq<Seq<char>>,
    variables: Seq<Seq<char>>,
    word: Seq<char>,
) -> Seq<Seq<char>> {
    if word.len() > 0 && word[0] == '{' {
        matching(commands, word) + matching(references(variables), word)
    } else {
        matching(commands, word)
    }
}

/// Completes the names of commands and the references to variables.
#[derive(Debug, Clone)]
pub struct ShellFlowCompleter {
    /// The names of the commands.
    pub commands: Vec<String>,
    /// The names of the variables.
    pub variables: Vec<String>,
}

impl ShellFlowCompleter {
    /// The candidates for `word`.
    pub fn candidates(&self, word: &str) -> (found: Vec<String>)
        ensures
            found.deep_view() == spec_candidates(
                self.commands.deep_view(),
                self.variables.deep_view(),
                word@,
            ),
    {
        let prefix = to_chars(word);
        let mut found: Vec<String> = Vec::new();
        let ghost commands = self.commands.deep_view();
        let mut i: usize = 0;
        assert(commands.take(0) =~= Seq::<Seq<char>>::empty());
        assert(found.deep_view() =~= Seq::<Seq<char>>::empty());
        while i < self.commands.len()
            invariant
                i <= self.commands.len(),
                commands == self.commands.deep_view(),
                prefix@ == word@,
                found.deep_view() == matching(commands.take(i as int), word@),
            decreases self.commands.len() - i,
        {
            proof {
                let next = commands.take(i + 1);
                assert(next.drop_last() =~= commands.take(i as int));
                assert(next.last() == self.commands@[i as int]@);
            }
            let item = to_chars(self.commands[i].as_str());
            if starts_with(&item, &prefix) {
                let ghost before = found.deep_view();
                found.push(self.commands[i].clone());
                assert(found.deep_view() =~= before.push(self.commands@[i as int]@));
            }
            i += 1;
        }
        assert(commands.take(i as int) =~= commands);
        if prefix.len() > 0 && prefix[0] == '{' {
            let ghost head = found.deep_view();
            let ghost written = references(self.variables.deep_view());
            let mut j: usize = 0;
            assert(written.take(0) =~= Seq::<Seq<char>>::empty());
            assert(head + Seq::<Seq<char>>::empty() =~= head);
            while j < self.variables.len()
                invariant
                    j <= self.variables.len(),
                    written == references(self.variables.deep_view()),
                    prefix@ == word@,
                    found.deep_view() == head + matching(written.take(j as int), word@),
                decreases self.variables.len() - j,
            {
                let mut reference = "{".to_owned();
                reference.append(self.variables[j].as_str());
                reference.append("}");
                proof {
                    let next = written.take(j + 1);
                    assert(next.drop_last() =~= written.take(j as int));
                    assert(next.last() == reference@);
                }
                let item = to_chars(reference.as_str());
                if starts_with(&item, &prefix) {
                    let ghost before = found.deep_view();
                    found.push(reference);
                    assert(found.deep_view() =~= before.push(reference@));
                    assert(before.push(reference@) =~= head + matching(
                        written.take(j as int),
                        word@,
                    ).push(reference@));
                }
                j += 1;
            }
            assert(written.take(j as int) =~= written);
        }
        found
    }

    /// The completions at the byte `pos` of `line`: the index of the byte
    /// at which the word under the cursor begins, and the candidates for
    /// that word. `pos` has to lie on the boundary of a character.
    pub fn complete(&self, line: &str, pos: usize) -> (completed: (usize, Vec<String>))
        requires
            is_char_boundary(line.spec_bytes(), pos as int),
        ensures
            completed.0 == word_start(line.spec_bytes(), pos as int),
            completed.1.deep_view() == spec_candidates(
                self.commands.deep_view(),
                self.variables.deep_view(),
                decode_utf8(line.spec_bytes().subrange(completed.0 as int, pos as int)),
            ),
    {
        let (start, word) = word_before(line, pos);
        proof {
            vstd::utf8::encode_utf8_decode_utf8(word@);
        }
        (start, self.candidates(word))
    }
}

/// What a line editor asks of its helper: the completer.
#[derive(Debug, Clone)]
pub struct ShellFlowHelper {
    pub completer: ShellFlowCompleter,
}

impl ShellFlowHelper {
    /// The completions at the byte `pos` of `line`, as the completer gives
    /// them.
    pub fn complete(&self, line: &str, pos: usize) -> (completed: (usize, Vec<String>))
        requires
            is_char_boundary(line.spec_bytes(), pos as int),
        ensures
            completed.0 == word_start(line.spec_bytes(), pos as int),
            completed.1.deep_view() == spec_candidates(
                self.completer.commands.deep_view(),
                self.completer.variables.deep_view(),
                decode_utf8(line.spec_bytes().subrange(completed.0 as int, pos as int)),
            ),
    {
        self.completer.complete(line, pos)
    }
}

} // verus!
