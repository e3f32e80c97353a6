//! The canonical multi-line shell form of a Cassiopeia command.
use vstd::prelude::*;
use vstd::string::*;
use crate::command_line_token::{CommandLineToken, TokenRole, role_of};
use crate::text::{seq_join, texts, join, spaced, lemma_join_push};

verus! {

/// The separator that continues a command onto the next line, as every example page writes it.
pub open spec fn continuation() -> Seq<char> {
    seq![' ', '\\', '\n', ' ', ' ', ' ', ' ']
}

/// Renders lines as the canonical multi-line shell form every example page uses.
///
/// Page text and executed command come from the same tokens, so a page cannot drift away from the
/// run it documents.
pub fn render(lines: &Vec<String>) -> (rendered: String)
    ensures
        rendered@ == seq_join(texts(lines@), continuation()),
{
    let separator = " \\\n    ";
    proof {
        reveal_strlit(" \\\n    ");
        assert(separator@ =~= continuation());
    }
    join(lines, separator)
}

/// The text of every token in a list.
pub open spec fn token_texts(tokens: Seq<CommandLineToken>) -> Seq<Seq<char>> {
    tokens.map_values(|t: CommandLineToken| t@)
}

/// The lines finished so far and the flag still waiting for its value, after some tokens.
pub open spec fn grouping(tokens: Seq<Seq<char>>) -> (Seq<Seq<char>>, Option<Seq<char>>)
    decreases tokens.len(),
{
    if tokens.len() == 0 {
        (Seq::empty(), None)
    } else {
        let (lines, pending) = grouping(tokens.drop_last());
        let token = tokens.last();
        match (role_of(token), pending) {
            (TokenRole::Flag, Some(flag)) => (lines.push(flag), Some(token)),
            (TokenRole::Flag, None) => (lines, Some(token)),
            (TokenRole::Value, Some(flag)) => (lines.push(flag + seq![' '] + token), None),
            (TokenRole::Value, None) => (lines.push(token), None),
        }
    }
}

/// One line per flag: a flag opens a line, the token after it joins that line unless it is a flag
/// itself, and any other token stands alone.
pub open spec fn grouped(tokens: Seq<Seq<char>>) -> Seq<Seq<char>> {
    let (lines, pending) = grouping(tokens);
    match pending {
        Some(flag) => lines.push(flag),
        None => lines,
    }
}

/// Groups tokens into one line per flag, keeping a flag and its value together.
///
/// A flag opens a line, and the token after it joins that line unless it opens one of its own. A
/// token that is neither, such as a subcommand, stands alone.
pub fn group_arguments(tokens: &Vec<CommandLineToken>) -> (lines: Vec<String>)
    ensures
        texts(lines@) == grouped(token_texts(tokens@)),
{
    let ghost all = token_texts(tokens@);
    let mut lines: Vec<String> = Vec::new();
    let mut pending: Option<usize> = None;
    let mut i: usize = 0;
    while i < tokens.len()
        invariant
            i <= tokens.len(),
            all == token_texts(tokens@),
            texts(lines@) == grouping(all.take(i as int)).0,
            match pending {
                Some(p) => p < i && grouping(all.take(i as int)).1 == Some(all[p as int]),
                None => grouping(all.take(i as int)).1 is None,
            },
        decreases tokens.len() - i,
    {
        assert(all.take(i + 1).drop_last() =~= all.take(i as int));
        assert(all.take(i + 1).last() == all[i as int]);
        let token = &tokens[i];
        let ghost before = texts(lines@);
        match (token.role(), pending) {
            (TokenRole::Flag, Some(flag)) => {
                lines.push(tokens[flag].as_str().to_owned());
                pending = Some(i);
                assert(texts(lines@) =~= before.push(all[flag as int]));
            },
            (TokenRole::Flag, None) => {
                pending = Some(i);
            },
            (TokenRole::Value, Some(flag)) => {
                lines.push(spaced(tokens[flag].as_str(), token.as_str()));
                pending = None;
                assert(texts(lines@) =~= before.push(all[flag as int] + seq![' '] + all[i as int]));
            },
            (TokenRole::Value, None) => {
                lines.push(token.as_str().to_owned());
                assert(texts(lines@) =~= before.push(all[i as int]));
            },
        }
        i += 1;
    }
    assert(all.take(tokens.len() as int) =~= all);
    if let Some(flag) = pending {
        let ghost before = texts(lines@);
        lines.push(tokens[flag].as_str().to_owned());
        assert(texts(lines@) =~= before.push(all[flag as int]));
    }
    lines
}

/// The lines finished so far, followed by the flag still waiting for its value, if there is one.
pub open spec fn flushed(state: (Seq<Seq<char>>, Option<Seq<char>>)) -> Seq<Seq<char>> {
    match state.1 {
        Some(flag) => state.0.push(flag),
        None => state.0,
    }
}

/// Grouping some tokens into lines, with the pending flag let out, keeps every word in its place.
proof fn lemma_grouping_keeps_words(tokens: Seq<Seq<char>>)
    ensures
        seq_join(flushed(grouping(tokens)), seq![' ']) == seq_join(tokens, seq![' ']),
        flushed(grouping(tokens)).len() == 0 <==> tokens.len() == 0,
    decreases tokens.len(),
{
    if tokens.len() > 0 {
        let earlier = tokens.drop_last();
        let token = tokens.last();
        let space = seq![' '];
        lemma_grouping_keeps_words(earlier);
        assert(tokens =~= earlier.push(token));
        lemma_join_push(earlier, token, space);
        let (lines, pending) = grouping(earlier);
        let before = flushed(grouping(earlier));
        match (role_of(token), pending) {
            (TokenRole::Flag, Some(flag)) => {
                lemma_join_push(before, token, space);
            },
            (TokenRole::Flag, None) => {
                lemma_join_push(before, token, space);
            },
            (TokenRole::Value, Some(flag)) => {
                lemma_join_push(lines, flag, space);
                lemma_join_push(lines, flag + space + token, space);
                if lines.len() > 0 {
                    assert(seq_join(lines, space) + space + (flag + space + token) =~= seq_join(lines, space) + space
                        + flag + space + token);
                }
            },
            (TokenRole::Value, None) => {
                lemma_join_push(before, token, space);
            },
        }
    }
}

/// Grouping a command line into one line per flag keeps its words: read back with every line
/// break as a space, the lines are the tokens, in order, one space apart.
pub proof fn lemma_grouping_keeps_the_command(tokens: Seq<Seq<char>>)
    ensures
        seq_join(grouped(tokens), seq![' ']) == seq_join(tokens, seq![' ']),
        grouped(tokens).len() == 0 <==> tokens.len() == 0,
{
    lemma_grouping_keeps_words(tokens);
}

} // verus!
