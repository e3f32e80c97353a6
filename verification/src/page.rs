//! Checks that an example page still documents the run its descriptor declares.
use vstd::prelude::*;
use vstd::string::*;
use crate::outside::io_error_text;
use crate::command_line::{continuation, token_texts};
use crate::container_image::{ContainerImage, published_image};
use crate::descriptor::{Descriptor, network_of};
use crate::runtime::{container_lines_of, documented_container_command, documented_native_command, native_lines_of};
use crate::text::{has_prefix, is_white, join, line_scan, lines, lines_of, same, seq_join, starts_with, texts, trim, trim_end, trimmed, trimmed_end, without_return};

verus! {

/// The walkthrough every example directory holds.
pub const PAGE_FILE: &'static str = "example.md";

/// Why a page and its descriptor disagree.
#[derive(Debug)]
pub enum PageError {
    /// The page is missing or unreadable.
    Unreadable {
        /// The page that was looked for.
        path: String,
        /// The underlying filesystem failure.
        source: std::io::Error,
    },
    /// The page has no H1.
    NoHeading {
        /// The page in question.
        path: String,
    },
    /// The page's H1 is not the title the descriptor declares.
    TitleMismatch {
        /// The page in question.
        path: String,
        /// What the page says.
        heading: String,
        /// What the descriptor says.
        title: String,
    },
    /// The page does not carry a command the descriptor declares.
    MissingCommand {
        /// The page in question.
        path: String,
        /// The command it should have carried.
        expected: String,
    },
}

/// What a line does to the block being collected.
#[derive(Debug, Clone, Copy, PartialEq, Eq, Structural)]
pub enum Delimiter {
    /// The line opens a shell block.
    OpensShell,
    /// The line closes whatever block is open.
    Closes,
    /// The line is not a fence.
    Text,
}

/// A line's part in the fences: the shell fence opens a block, a bare fence closes one, and trailing
/// white space is not part of either.
pub open spec fn delimiter_of(line: Seq<char>) -> Delimiter {
    if trimmed_end(line) == "```bash"@ {
        Delimiter::OpensShell
    } else if trimmed_end(line) == "```"@ {
        Delimiter::Closes
    } else {
        Delimiter::Text
    }
}

/// The blocks closed so far and the lines of the block still open, after some lines.
pub open spec fn block_scan(lines: Seq<Seq<char>>) -> (Seq<Seq<char>>, Option<Seq<Seq<char>>>)
    decreases lines.len(),
{
    if lines.len() == 0 {
        (Seq::empty(), None)
    } else {
        let (blocks, open) = block_scan(lines.drop_last());
        let line = lines.last();
        match (delimiter_of(line), open) {
            (Delimiter::OpensShell, None) => (blocks, Some(Seq::empty())),
            (Delimiter::Closes, Some(collected)) => (blocks.push(seq_join(collected, "\n"@)), None),
            (Delimiter::OpensShell, Some(collected)) => (blocks, Some(collected.push(line))),
            (Delimiter::Text, Some(collected)) => (blocks, Some(collected.push(line))),
            (Delimiter::Closes, None) => (blocks, None),
            (Delimiter::Text, None) => (blocks, None),
        }
    }
}

/// The content of every closed shell fence on a page, without its delimiters. A fence line inside
/// an open block is content, since the pages quote fenced markdown.
pub open spec fn shell_blocks_of(text: Seq<char>) -> Seq<Seq<char>> {
    block_scan(lines_of(text)).0
}

/// The content of every shell code fence on a page.
pub fn shell_blocks(text: &str) -> (blocks: Vec<String>)
    ensures
        texts(blocks@) == shell_blocks_of(text@),
{
    let all = lines(text);
    let mut blocks: Vec<String> = Vec::new();
    let mut current: Option<Vec<String>> = None;
    let mut i: usize = 0;
    while i < all.len()
        invariant
            i <= all.len(),
            texts(all@) == lines_of(text@),
            block_scan(texts(all@).take(i as int)) == (
                texts(blocks@),
                match current {
                    Some(c) => Some(texts(c@)),
                    None => None,
                },
            ),
        decreases all.len() - i,
    {
        assert(texts(all@).take(i + 1).drop_last() =~= texts(all@).take(i as int));
        let line = &all[i];
        let trimmed_line = trim_end(line.as_str());
        let opens = same(trimmed_line.as_str(), "```bash");
        let closes = same(trimmed_line.as_str(), "```");
        let ghost before = texts(blocks@);
        match current {
            None => {
                if opens {
                    let fresh: Vec<String> = Vec::new();
                    assert(texts(fresh@) =~= Seq::<Seq<char>>::empty());
                    current = Some(fresh);
                }
            },
            Some(collected) => {
                if closes && !opens {
                    blocks.push(join(&collected, "\n"));
                    assert(texts(blocks@) =~= before.push(seq_join(texts(collected@), "\n"@)));
                    current = None;
                } else {
                    let mut collected = collected;
                    let ghost was = texts(collected@);
                    collected.push(line.clone());
                    assert(texts(collected@) =~= was.push(line@));
                    current = Some(collected);
                }
            },
        }
        i += 1;
    }
    assert(texts(all@).take(all.len() as int) =~= texts(all@));
    blocks
}

/// The first H1 of a list of lines, trimmed.
pub open spec fn first_heading(lines: Seq<Seq<char>>) -> Option<Seq<char>>
    decreases lines.len(),
{
    if lines.len() == 0 {
        None
    } else if has_prefix(lines[0], "# "@) {
        Some(trimmed(lines[0].skip(2)))
    } else {
        first_heading(lines.drop_first())
    }
}

/// Whether some block, trimmed, is exactly the expected command.
pub open spec fn documents(blocks: Seq<Seq<char>>, expected: Seq<char>) -> bool {
    exists|i: int| 0 <= i < blocks.len() && trimmed(#[trigger] blocks[i]) == expected
}

/// The host-binary command a page has to carry for a descriptor.
pub open spec fn native_command_of(descriptor: Descriptor) -> Seq<char> {
    seq_join(native_lines_of(token_texts(descriptor.run.args@)), continuation())
}

/// The Docker command a page has to carry for a descriptor, with the published image.
pub open spec fn container_command_of(descriptor: Descriptor) -> Seq<char> {
    seq_join(
        container_lines_of(
            token_texts(descriptor.run.args@),
            descriptor.requirements,
            network_of(descriptor),
            published_image(),
        ),
        continuation(),
    )
}

/// The first H1 among some lines.
fn heading(all: &Vec<String>) -> (found: Option<String>)
    ensures
        match found {
            Some(h) => first_heading(texts(all@)) == Some(h@),
            None => first_heading(texts(all@)) is None,
        },
{
    let prefix = "# ";
    proof {
        reveal_strlit("# ");
    }
    assert(texts(all@).skip(0) =~= texts(all@));
    let mut i: usize = 0;
    while i < all.len()
        invariant
            i <= all.len(),
            prefix@ == "# "@,
            prefix@.len() == 2,
            first_heading(texts(all@).skip(i as int)) == first_heading(texts(all@)),
        decreases all.len() - i,
    {
        assert(texts(all@).skip(i as int).drop_first() =~= texts(all@).skip(i + 1));
        assert(texts(all@).skip(i as int)[0] == all@[i as int]@);
        if starts_with(all[i].as_str(), prefix) {
            let line = all[i].as_str();
            assert(line@.len() >= 2);
            let rest = line.substring_char(2, line.unicode_len());
            assert(rest@ =~= all@[i as int]@.skip(2));
            return Some(trim(rest));
        }
        i += 1;
    }
    assert(texts(all@).skip(all.len() as int) =~= Seq::<Seq<char>>::empty());
    None
}

/// Whether some block, trimmed, is exactly the expected command.
fn documented(blocks: &Vec<String>, expected: &str) -> (found: bool)
    ensures
        found == documents(texts(blocks@), expected@),
{
    let mut i: usize = 0;
    while i < blocks.len()
        invariant
            i <= blocks.len(),
            forall|j: int| 0 <= j < i ==> trimmed(#[trigger] texts(blocks@)[j]) != expected@,
        decreases blocks.len() - i,
    {
        let block = trim(blocks[i].as_str());
        if same(block.as_str(), expected) {
            assert(trimmed(texts(blocks@)[i as int]) == expected@);
            return true;
        }
        i += 1;
    }
    false
}

/// Checks that a page's text still documents the run the descriptor declares.
///
/// The page is the path for a reader who has neither the runner nor a Rust toolchain, so it has to
/// carry both forms of the command verbatim: its H1 is the descriptor's title, and some shell block
/// holds each command. Comparing them here turns drift into a failed check instead of a reader
/// running something that no longer works.
pub fn check(path: String, text: &str, descriptor: &Descriptor) -> (checked: Result<(), PageError>)
    ensures
        match checked {
            Ok(()) => first_heading(lines_of(text@)) == Some(descriptor.example.title@) && documents(
                shell_blocks_of(text@),
                native_command_of(*descriptor),
            ) && documents(shell_blocks_of(text@), container_command_of(*descriptor)),
            Err(PageError::NoHeading { path: p }) => p == path && first_heading(lines_of(text@)) is None,
            Err(PageError::TitleMismatch { path: p, heading: h, title: t }) => p == path && first_heading(lines_of(text@))
                == Some(h@) && h@ != descriptor.example.title@ && t == descriptor.example.title,
            Err(PageError::MissingCommand { path: p, expected: e }) => p == path && first_heading(lines_of(text@)) == Some(
                descriptor.example.title@,
            ) && ((e@ == native_command_of(*descriptor) && !documents(shell_blocks_of(text@), e@)) || (documents(
                shell_blocks_of(text@),
                native_command_of(*descriptor),
            ) && e@ == container_command_of(*descriptor) && !documents(shell_blocks_of(text@), e@))),
            Err(PageError::Unreadable { .. }) => false,
        },
{
    let all = lines(text);
    let found = heading(&all);
    let title = match found {
        Some(title) => title,
        None => return Err(PageError::NoHeading { path }),
    };
    if !same(title.as_str(), descriptor.example.title.as_str()) {
        return Err(PageError::TitleMismatch { path, heading: title, title: descriptor.example.title.clone() });
    }
    let blocks = shell_blocks(text);
    let image = ContainerImage::published();
    let native = documented_native_command(&descriptor.run);
    if !documented(&blocks, native.as_str()) {
        return Err(PageError::MissingCommand { path, expected: native });
    }
    let container = documented_container_command(&descriptor.run, descriptor.requirements, descriptor.network(), &image);
    if !documented(&blocks, container.as_str()) {
        return Err(PageError::MissingCommand { path, expected: container });
    }
    Ok(())
}

/// Some lines, each followed by a line ending: how a page is written line by line.
pub open spec fn lines_text(lines: Seq<Seq<char>>) -> Seq<char>
    decreases lines.len(),
{
    if lines.len() == 0 {
        Seq::empty()
    } else {
        lines_text(lines.drop_last()) + lines.last() + seq!['\n']
    }
}

/// A line a page can carry as one line: no line ending inside it, and no carriage return at its end
/// that reading it back would take for part of a `\r\n`.
pub open spec fn single_line(line: Seq<char>) -> bool {
    &&& forall|i: int| 0 <= i < line.len() ==> line[i] != '\n'
    &&& !(line.len() > 0 && line.last() == '\r')
}

/// The lines of a text with no line ending in it: none finished, and the text still open.
proof fn lemma_scan_within_a_line(line: Seq<char>)
    requires
        forall|i: int| 0 <= i < line.len() ==> line[i] != '\n',
    ensures
        line_scan(line) == (Seq::<Seq<char>>::empty(), line),
    decreases line.len(),
{
    if line.len() > 0 {
        lemma_scan_within_a_line(line.drop_last());
        assert(line.drop_last().push(line.last()) =~= line);
    }
}

/// Scanning a text that ends a line and then more text is scanning each in turn.
proof fn lemma_scan_after_a_line_ending(first: Seq<char>, rest: Seq<char>)
    requires
        line_scan(first).1.len() == 0,
    ensures
        line_scan(first + rest) == (line_scan(first).0 + line_scan(rest).0, line_scan(rest).1),
    decreases rest.len(),
{
    if rest.len() == 0 {
        assert(first + rest =~= first);
    } else {
        lemma_scan_after_a_line_ending(first, rest.drop_last());
        assert((first + rest).drop_last() =~= first + rest.drop_last());
        let (done, open) = line_scan(rest.drop_last());
        if rest.last() == '\n' {
            assert(line_scan(first).0 + done.push(without_return(open)) =~= (line_scan(first).0 + done).push(
                without_return(open),
            ));
        }
    }
}

/// Reading back lines written one per line gives the same lines.
proof fn lemma_lines_read_back(lines: Seq<Seq<char>>)
    requires
        forall|i: int| 0 <= i < lines.len() ==> single_line(#[trigger] lines[i]),
    ensures
        line_scan(lines_text(lines)) == (lines, Seq::<char>::empty()),
        lines_of(lines_text(lines)) == lines,
    decreases lines.len(),
{
    if lines.len() > 0 {
        let earlier = lines.drop_last();
        let line = lines.last();
        assert(single_line(lines[lines.len() - 1]));
        lemma_lines_read_back(earlier);
        lemma_scan_within_a_line(line);
        let tail = line + seq!['\n'];
        assert(tail.drop_last() =~= line);
        assert(line_scan(tail) == (seq![line], Seq::<char>::empty()));
        assert(lines_text(lines) =~= lines_text(earlier) + tail);
        lemma_scan_after_a_line_ending(lines_text(earlier), tail);
        assert(earlier + seq![line] =~= lines);
    } else {
        assert(lines_of(lines_text(lines)) =~= lines);
    }
}

/// The blocks and the open block after a stretch of lines, from a given start.
pub open spec fn block_fold(state: (Seq<Seq<char>>, Option<Seq<Seq<char>>>), lines: Seq<Seq<char>>) -> (
    Seq<Seq<char>>,
    Option<Seq<Seq<char>>>,
)
    decreases lines.len(),
{
    if lines.len() == 0 {
        state
    } else {
        let (blocks, open) = block_fold(state, lines.drop_last());
        let line = lines.last();
        match (delimiter_of(line), open) {
            (Delimiter::OpensShell, None) => (blocks, Some(Seq::empty())),
            (Delimiter::Closes, Some(collected)) => (blocks.push(seq_join(collected, "\n"@)), None),
            (Delimiter::OpensShell, Some(collected)) => (blocks, Some(collected.push(line))),
            (Delimiter::Text, Some(collected)) => (blocks, Some(collected.push(line))),
            (Delimiter::Closes, None) => (blocks, None),
            (Delimiter::Text, None) => (blocks, None),
        }
    }
}

/// Collecting blocks over two stretches of lines is collecting over the first, then the second.
proof fn lemma_scan_in_two(first: Seq<Seq<char>>, rest: Seq<Seq<char>>)
    ensures
        block_scan(first + rest) == block_fold(block_scan(first), rest),
    decreases rest.len(),
{
    if rest.len() == 0 {
        assert(first + rest =~= first);
    } else {
        lemma_scan_in_two(first, rest.drop_last());
        assert((first + rest).drop_last() =~= first + rest.drop_last());
        assert((first + rest).last() == rest.last());
    }
}

/// The text without its trailing white space opens the text.
proof fn lemma_trimmed_end_opens(text: Seq<char>)
    ensures
        trimmed_end(text).len() <= text.len(),
        trimmed_end(text) =~= text.take(trimmed_end(text).len() as int),
    decreases text.len(),
{
    if text.len() > 0 && is_white(text.last()) {
        lemma_trimmed_end_opens(text.drop_last());
    }
}

/// The fence lines are what they look like, and a heading line is no fence.
proof fn lemma_fence_lines(title: Seq<char>)
    ensures
        delimiter_of("```bash"@) == Delimiter::OpensShell,
        delimiter_of("```"@) == Delimiter::Closes,
        delimiter_of("# "@ + title) == Delimiter::Text,
        single_line("```bash"@),
        single_line("```"@),
        "# "@.len() == 2,
{
    reveal_strlit("```bash");
    reveal_strlit("```");
    reveal_strlit("# ");
    assert("```bash"@ =~= seq!['`', '`', '`', 'b', 'a', 's', 'h']);
    assert("```"@ =~= seq!['`', '`', '`']);
    assert("# "@ =~= seq!['#', ' ']);
    let heading = "# "@ + title;
    lemma_trimmed_end_opens(heading);
    let kept = trimmed_end(heading);
    if kept == "```bash"@ || kept == "```"@ {
        assert(kept[0] == heading[0]);
    }
}

/// Lines of text after an opening fence, met while no block was open, are collected in order.
proof fn lemma_open_fence_collects(state: (Seq<Seq<char>>, Option<Seq<Seq<char>>>), lines: Seq<Seq<char>>, k: int)
    requires
        state.1 is None,
        0 <= k <= lines.len(),
        forall|i: int| 0 <= i < lines.len() ==> delimiter_of(#[trigger] lines[i]) == Delimiter::Text,
    ensures
        block_fold(state, seq!["```bash"@] + lines.take(k)) == (state.0, Some(lines.take(k))),
    decreases k,
{
    lemma_fence_lines(Seq::empty());
    let opened = seq!["```bash"@];
    if k == 0 {
        assert(opened + lines.take(0) =~= opened);
        assert(opened.drop_last() =~= Seq::<Seq<char>>::empty());
        assert(block_fold(state, opened.drop_last()) == state);
        assert(lines.take(0) =~= Seq::<Seq<char>>::empty());
    } else {
        lemma_open_fence_collects(state, lines, k - 1);
        assert((opened + lines.take(k)).drop_last() =~= opened + lines.take(k - 1));
        assert((opened + lines.take(k)).last() == lines[k - 1]);
        assert(lines.take(k - 1).push(lines[k - 1]) =~= lines.take(k));
    }
}

/// A shell fence around some lines, met while no block is open, adds the lines joined as one block.
proof fn lemma_one_fence(state: (Seq<Seq<char>>, Option<Seq<Seq<char>>>), lines: Seq<Seq<char>>)
    requires
        state.1 is None,
        forall|i: int| 0 <= i < lines.len() ==> delimiter_of(#[trigger] lines[i]) == Delimiter::Text,
    ensures
        block_fold(state, seq!["```bash"@] + lines + seq!["```"@]) == (state.0.push(seq_join(lines, "\n"@)), None::<
            Seq<Seq<char>>,
        >),
{
    lemma_fence_lines(Seq::empty());
    let opened = seq!["```bash"@];
    lemma_open_fence_collects(state, lines, lines.len() as int);
    assert(lines.take(lines.len() as int) =~= lines);
    let whole = opened + lines + seq!["```"@];
    assert(whole.drop_last() =~= opened + lines);
    assert(whole.last() == "```"@);
}

/// The page a reader is given for a run: its title as the H1, then each command in a shell fence.
pub open spec fn page_lines(title: Seq<char>, native: Seq<Seq<char>>, container: Seq<Seq<char>>) -> Seq<Seq<char>> {
    seq!["# "@ + title] + (seq!["```bash"@] + native + seq!["```"@]) + (seq!["```bash"@] + container + seq!["```"@])
}

/// A page that quotes the commands the descriptor derives passes the check: its H1 reads as the
/// title, and each fenced command reads back as a block that is that command. The commands are
/// given line by line; a line of either that is itself a fence, holds a line ending, or ends in a
/// carriage return would be read differently, and so would a title or a command with white space at
/// either end.
pub proof fn lemma_a_page_quoting_its_commands_checks_out(
    descriptor: Descriptor,
    native: Seq<Seq<char>>,
    container: Seq<Seq<char>>,
)
    requires
        single_line(descriptor.example.title@),
        trimmed(descriptor.example.title@) == descriptor.example.title@,
        seq_join(native, "\n"@) == native_command_of(descriptor),
        seq_join(container, "\n"@) == container_command_of(descriptor),
        trimmed(native_command_of(descriptor)) == native_command_of(descriptor),
        trimmed(container_command_of(descriptor)) == container_command_of(descriptor),
        forall|i: int| 0 <= i < native.len() ==> single_line(#[trigger] native[i]) && delimiter_of(native[i]) == Delimiter::Text,
        forall|i: int| 0 <= i < container.len() ==> single_line(#[trigger] container[i]) && delimiter_of(container[i])
            == Delimiter::Text,
    ensures
        ({
            let text = lines_text(page_lines(descriptor.example.title@, native, container));
            &&& first_heading(lines_of(text)) == Some(descriptor.example.title@)
            &&& documents(shell_blocks_of(text), native_command_of(descriptor))
            &&& documents(shell_blocks_of(text), container_command_of(descriptor))
        }),
{
    let title = descriptor.example.title@;
    lemma_fence_lines(title);
    let heading = "# "@ + title;
    let first_fence = seq!["```bash"@] + native + seq!["```"@];
    let second_fence = seq!["```bash"@] + container + seq!["```"@];
    let all = page_lines(title, native, container);
    assert(single_line(heading)) by {
        assert forall|i: int| 0 <= i < heading.len() implies heading[i] != '\n' by {
            if i >= 2 {
                assert(heading[i] == title[i - 2]);
            } else {
                reveal_strlit("# ");
            }
        }
        if title.len() > 0 {
            assert(heading.last() == title.last());
        } else {
            reveal_strlit("# ");
        }
    }
    assert forall|i: int| 0 <= i < all.len() implies single_line(#[trigger] all[i]) by {
        if i == 0 {
        } else if i == 1 || i == native.len() + 2 || i == native.len() + 3 || i == all.len() - 1 {
        } else if i < native.len() + 2 {
            assert(all[i] == native[i - 2]);
        } else {
            assert(all[i] == container[i - native.len() - 4]);
        }
    }
    lemma_lines_read_back(all);
    let text = lines_text(all);
    assert(lines_of(text) == all);
    // The heading.
    assert(all[0] == heading);
    assert(all.drop_first() =~= first_fence + second_fence);
    assert(has_prefix(heading, "# "@)) by {
        assert(heading.subrange(0, 2) =~= "# "@);
    }
    assert(heading.skip(2) =~= title);
    // The blocks.
    let opening = seq![heading];
    assert(opening.drop_last() =~= Seq::<Seq<char>>::empty());
    assert(block_scan(opening.drop_last()) == (Seq::<Seq<char>>::empty(), None::<Seq<Seq<char>>>));
    assert(opening.last() == heading);
    assert(block_scan(opening) == (Seq::<Seq<char>>::empty(), None::<Seq<Seq<char>>>));
    assert(all =~= opening + (first_fence + second_fence));
    lemma_scan_in_two(opening, first_fence + second_fence);
    lemma_one_fence(block_scan(opening), native);
    assert(block_fold(block_scan(opening), first_fence + second_fence) == block_fold(
        block_fold(block_scan(opening), first_fence),
        second_fence,
    )) by {
        lemma_fold_in_two(block_scan(opening), first_fence, second_fence);
    }
    let after_first = block_fold(block_scan(opening), first_fence);
    lemma_one_fence(after_first, container);
    let blocks = shell_blocks_of(text);
    assert(block_scan(all) == block_fold(after_first, second_fence));
    assert(blocks =~= seq![native_command_of(descriptor), container_command_of(descriptor)]);
    assert(trimmed(blocks[0]) == native_command_of(descriptor));
    assert(trimmed(blocks[1]) == container_command_of(descriptor));
}

/// Folding over two stretches of lines is folding over the first, then the second.
proof fn lemma_fold_in_two(
    state: (Seq<Seq<char>>, Option<Seq<Seq<char>>>),
    first: Seq<Seq<char>>,
    rest: Seq<Seq<char>>,
)
    ensures
        block_fold(state, first + rest) == block_fold(block_fold(state, first), rest),
    decreases rest.len(),
{
    if rest.len() == 0 {
        assert(first + rest =~= first);
    } else {
        lemma_fold_in_two(state, first, rest.drop_last());
        assert((first + rest).drop_last() =~= first + rest.drop_last());
        assert((first + rest).last() == rest.last());
    }
}

/// What a page failure prints as, where `detail` is what the operating system's failure, if any,
/// prints as.
pub open spec fn page_message(error: PageError, detail: Seq<char>) -> Seq<char> {
    match error {
        PageError::Unreadable { path, .. } => "cannot read "@ + path@ + ": "@ + detail,
        PageError::NoHeading { path } => path@ + " has no H1 heading"@,
        PageError::TitleMismatch { path, heading, title } => path@ + " is titled \""@ + heading@
            + "\", but its descriptor says \""@ + title@ + "\""@,
        PageError::MissingCommand { path, expected } => path@ + " does not document this command:\n\n"@ + expected@
            + "\n"@,
    }
}

impl PageError {
    /// What the failure prints as, given what the operating system's failure, if any, prints as.
    pub fn describe(&self, detail: &str) -> (text: String)
        ensures
            text@ == page_message(*self, detail@),
    {
        let mut text = String::new();
        match self {
            PageError::Unreadable { path, .. } => {
                text.append("cannot read ");
                text.append(path.as_str());
                text.append(": ");
                text.append(detail);
            },
            PageError::NoHeading { path } => {
                text.append(path.as_str());
                text.append(" has no H1 heading");
            },
            PageError::TitleMismatch { path, heading, title } => {
                text.append(path.as_str());
                text.append(" is titled \"");
                text.append(heading.as_str());
                text.append("\", but its descriptor says \"");
                text.append(title.as_str());
                text.append("\"");
            },
            PageError::MissingCommand { path, expected } => {
                text.append(path.as_str());
                text.append(" does not document this command:\n\n");
                text.append(expected.as_str());
                text.append("\n");
            },
        }
        text
    }

    /// What the failure prints as: exactly for a page that does not match its descriptor, and with
    /// the operating system's words for one that could not be read.
    pub fn to_string(&self) -> (text: String)
        ensures
            exists|detail: Seq<char>| text@ == page_message(*self, detail),
            !(*self is Unreadable) ==> text@ == page_message(*self, Seq::empty()),
    {
        let detail = match self {
            PageError::Unreadable { source, .. } => io_error_text(source),
            _ => String::new(),
        };
        let text = self.describe(detail.as_str());
        assert(text@ == page_message(*self, detail@));
        text
    }
}

/// Collecting from the start of a page is collecting with nothing closed and nothing open.
proof fn lemma_fold_from_the_start(lines: Seq<Seq<char>>)
    ensures
        block_fold((Seq::empty(), None), lines) == block_scan(lines),
    decreases lines.len(),
{
    if lines.len() > 0 {
        lemma_fold_from_the_start(lines.drop_last());
    }
}

/// Lines among which no shell fence opens leave nothing collected and no block open, whatever
/// other fences they hold.
proof fn lemma_no_shell_fence_no_block(lines: Seq<Seq<char>>)
    requires
        forall|i: int| 0 <= i < lines.len() ==> delimiter_of(#[trigger] lines[i]) != Delimiter::OpensShell,
    ensures
        block_scan(lines) == (Seq::<Seq<char>>::empty(), None::<Seq<Seq<char>>>),
    decreases lines.len(),
{
    if lines.len() > 0 {
        assert(delimiter_of(lines[lines.len() - 1]) != Delimiter::OpensShell);
        lemma_no_shell_fence_no_block(lines.drop_last());
    }
}

/// Only a shell fence opens a block: a page none of whose lines is a shell fence documents no
/// command, however many fences in other languages, and bare fences, it holds.
pub proof fn lemma_a_page_without_a_shell_fence_has_no_blocks(lines: Seq<Seq<char>>)
    requires
        forall|i: int| 0 <= i < lines.len() ==> single_line(#[trigger] lines[i]),
        forall|i: int| 0 <= i < lines.len() ==> delimiter_of(#[trigger] lines[i]) != Delimiter::OpensShell,
    ensures
        shell_blocks_of(lines_text(lines)) == Seq::<Seq<char>>::empty(),
{
    lemma_lines_read_back(lines);
    lemma_no_shell_fence_no_block(lines);
}

/// Fenced blocks in other languages, and any lines without a shell fence, ahead of the rest of a
/// page change nothing: the shell blocks are those the rest of the page holds on its own.
pub proof fn lemma_other_fences_before_change_nothing(before: Seq<Seq<char>>, after: Seq<Seq<char>>)
    requires
        forall|i: int| 0 <= i < before.len() ==> single_line(#[trigger] before[i]),
        forall|i: int| 0 <= i < after.len() ==> single_line(#[trigger] after[i]),
        forall|i: int| 0 <= i < before.len() ==> delimiter_of(#[trigger] before[i]) != Delimiter::OpensShell,
    ensures
        shell_blocks_of(lines_text(before + after)) == shell_blocks_of(lines_text(after)),
{
    let whole = before + after;
    assert forall|i: int| 0 <= i < whole.len() implies single_line(#[trigger] whole[i]) by {
        if i < before.len() {
            assert(whole[i] == before[i]);
        } else {
            assert(whole[i] == after[i - before.len()]);
        }
    }
    lemma_lines_read_back(whole);
    lemma_lines_read_back(after);
    lemma_no_shell_fence_no_block(before);
    lemma_scan_in_two(before, after);
    lemma_fold_from_the_start(after);
}

} // verus!
