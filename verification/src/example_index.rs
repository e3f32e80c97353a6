//! The README's generated index of examples.
use vstd::prelude::*;
use crate::data_model_name::DataModelName;
use crate::format_badge::{FormatBadge, badge_text};
use crate::listing::ExampleEntry;
use crate::outside::io_error_text;
use crate::source_format::SourceFormat;
use crate::text::{chars_of, join, lemma_join_push, seq_join, texts};

verus! {

/// Where the generated index starts in the README.
pub const START_MARKER: &'static str = "<!-- examples:start -->";

/// Where it ends.
pub const END_MARKER: &'static str = "<!-- examples:end -->";

/// Why the README index could not be regenerated.
#[derive(Debug)]
pub enum ExampleIndexError {
    /// The README is missing or unreadable.
    Unreadable {
        /// The README.
        path: String,
        /// The underlying filesystem failure.
        source: std::io::Error,
    },
    /// The README has no generated region.
    NoMarkers {
        /// The README.
        path: String,
    },
    /// The README could not be written back.
    Unwritable {
        /// The README.
        path: String,
        /// The underlying filesystem failure.
        source: std::io::Error,
    },
}

/// A model's name as inline code.
pub open spec fn model_code(model: DataModelName) -> Seq<char> {
    "`"@ + model@ + "`"@
}

/// The badges of an entry, last format first: floated badges stack from the right edge inwards,
/// so the declared order is reversed to land them on the page in the order the descriptor writes
/// them.
pub open spec fn badges_of(formats: Seq<SourceFormat>) -> Seq<Seq<char>> {
    formats.reverse().map_values(|format: SourceFormat| badge_text(format))
}

/// One example's entry: what it reads, what it is, what it produces, and what it shows.
pub open spec fn block_of(entry: ExampleEntry) -> Seq<char> {
    seq_join(badges_of(entry.descriptor.example.formats@), " "@) + " **["@ + entry.descriptor.example.label@
        + "](examples/"@ + entry.name@ + "/example.md)** → "@ + seq_join(
        entry.descriptor.example.models@.map_values(|model: DataModelName| model_code(model)),
        " "@,
    ) + "\n\n"@ + entry.descriptor.example.summary@
}

/// The index: every entry's block, a blank line between each two.
pub open spec fn render_of(entries: Seq<ExampleEntry>) -> Seq<char> {
    seq_join(entries.map_values(|entry: ExampleEntry| block_of(entry)), "\n\n"@)
}

/// One example's entry: what it reads, what it is, what it produces, and what it shows.
pub fn block(entry: &ExampleEntry) -> (text: String)
    ensures
        text@ == block_of(*entry),
{
    let formats = &entry.descriptor.example.formats;
    let mut badges: Vec<String> = Vec::new();
    let mut k: usize = formats.len();
    while k > 0
        invariant
            k <= formats@.len(),
            texts(badges@) == badges_of(formats@).take(formats@.len() - k),
        decreases k,
    {
        k -= 1;
        let ghost before = texts(badges@);
        let badge = FormatBadge::from(formats[k]);
        badges.push(badge.to_string());
        assert(texts(badges@) =~= before.push(badge_text(formats@[k as int])));
        assert(badges_of(formats@).take(formats@.len() - k) =~= badges_of(formats@).take(
            formats@.len() - k - 1,
        ).push(badge_text(formats@[k as int])));
    }
    assert(badges_of(formats@).take(formats@.len() as int) =~= badges_of(formats@));
    let models = &entry.descriptor.example.models;
    let mut codes: Vec<String> = Vec::new();
    let mut i: usize = 0;
    while i < models.len()
        invariant
            i <= models@.len(),
            texts(codes@) == models@.take(i as int).map_values(|model: DataModelName| model_code(model)),
        decreases models.len() - i,
    {
        let ghost before = texts(codes@);
        let mut code = String::new();
        code.append("`");
        code.append(models[i].as_str());
        code.append("`");
        codes.push(code);
        assert(texts(codes@) =~= before.push(model_code(models@[i as int])));
        assert(models@.take(i + 1).map_values(|model: DataModelName| model_code(model)) =~= models@.take(
            i as int,
        ).map_values(|model: DataModelName| model_code(model)).push(model_code(models@[i as int])));
        i += 1;
    }
    assert(models@.take(models@.len() as int) =~= models@);
    let mut text = join(&badges, " ");
    text.append(" **[");
    text.append(entry.descriptor.example.label.as_str());
    text.append("](examples/");
    text.append(entry.name.as_str());
    text.append("/example.md)** → ");
    text.append(join(&codes, " ").as_str());
    text.append("\n\n");
    text.append(entry.descriptor.example.summary.as_str());
    text
}

/// Renders the README's index of examples.
///
/// The index is generated rather than hand-written so that an example's entry cannot say something
/// its descriptor does not. Entries keep the reading order the directory prefixes set, which is why
/// the prefix itself is left out of the link text: the order carries it.
pub fn render(entries: &[ExampleEntry]) -> (index: String)
    ensures
        index@ == render_of(entries@),
{
    let mut blocks: Vec<String> = Vec::new();
    let mut i: usize = 0;
    while i < entries.len()
        invariant
            i <= entries@.len(),
            texts(blocks@) == entries@.take(i as int).map_values(|entry: ExampleEntry| block_of(entry)),
        decreases entries.len() - i,
    {
        let ghost before = texts(blocks@);
        blocks.push(block(&entries[i]));
        assert(texts(blocks@) =~= before.push(block_of(entries@[i as int])));
        assert(entries@.take(i + 1).map_values(|entry: ExampleEntry| block_of(entry)) =~= entries@.take(
            i as int,
        ).map_values(|entry: ExampleEntry| block_of(entry)).push(block_of(entries@[i as int])));
        i += 1;
    }
    assert(entries@.take(entries@.len() as int) =~= entries@);
    join(&blocks, "\n\n")
}

/// Whether a pattern occurs in a text at a position.
pub open spec fn occurs_at(text: Seq<char>, pattern: Seq<char>, at: int) -> bool {
    0 <= at && at + pattern.len() <= text.len() && text.subrange(at, at + pattern.len()) == pattern
}

/// Whether a position is where a pattern first occurs in a text.
pub open spec fn first_at(text: Seq<char>, pattern: Seq<char>, at: int) -> bool {
    occurs_at(text, pattern, at) && forall|j: int| 0 <= j < at ==> !#[trigger] occurs_at(text, pattern, j)
}

/// Where a pattern first occurs in a text, if it does.
pub open spec fn first_occurrence(text: Seq<char>, pattern: Seq<char>) -> Option<int> {
    if exists|at: int| #[trigger] occurs_at(text, pattern, at) {
        Some(choose|at: int| first_at(text, pattern, at))
    } else {
        None
    }
}

/// Where a pattern first occurs in a text, counted in characters.
fn find(text: &str, pattern: &str) -> (found: Option<usize>)
    ensures
        match found {
            Some(at) => first_at(text@, pattern@, at as int) && first_occurrence(text@, pattern@) == Some(at as int),
            None => first_occurrence(text@, pattern@) is None,
        },
{
    let t = chars_of(text);
    let p = chars_of(pattern);
    if p.len() > t.len() {
        assert forall|at: int| !#[trigger] occurs_at(text@, pattern@, at) by {}
        return None;
    }
    let whole = t.len();
    let last = whole - p.len();
    let mut at: usize = 0;
    while at <= last
        invariant
            t@ == text@,
            p@ == pattern@,
            last == t@.len() - p@.len(),
            p@.len() <= t@.len(),
            whole == t@.len(),
            forall|j: int| 0 <= j < at ==> !#[trigger] occurs_at(text@, pattern@, j),
        decreases last + 1 - at,
    {
        let mut k: usize = 0;
        let mut agreeing = true;
        while agreeing && k < p.len()
            invariant
                t@ == text@,
                p@ == pattern@,
                at <= last,
                last == t@.len() - p@.len(),
                p@.len() <= t@.len(),
                whole == t@.len(),
                k <= p@.len(),
                forall|m: int| 0 <= m < k ==> t@[at + m] == p@[m],
                !agreeing ==> k < p@.len() && t@[at + k] != p@[k as int],
            decreases p.len() - k + (if agreeing { 1int } else { 0int }),
        {
            if t[at + k] == p[k] {
                k += 1;
            } else {
                agreeing = false;
            }
        }
        if agreeing {
            assert(text@.subrange(at as int, at + pattern@.len()) =~= pattern@);
            proof {
                assert(first_at(text@, pattern@, at as int));
                let chosen = choose|c: int| first_at(text@, pattern@, c);
                if chosen != at {
                    assert(chosen < at || at < chosen);
                }
            }
            return Some(at);
        }
        assert(!occurs_at(text@, pattern@, at as int)) by {
            if occurs_at(text@, pattern@, at as int) {
                assert(text@.subrange(at as int, at + pattern@.len())[k as int] == t@[at + k]);
            }
        }
        if at == last {
            assert forall|j: int| !#[trigger] occurs_at(text@, pattern@, j) by {
                if 0 <= j && j <= at {
                } else if j > at {
                }
            }
            return None;
        }
        at += 1;
    }
    None
}

/// The README with the region between the markers replaced by an index.
pub open spec fn spliced(text: Seq<char>, start: int, end: int, index: Seq<char>) -> Seq<char> {
    text.take(start) + START_MARKER@ + "\n\n"@ + index + "\n\n"@ + text.skip(end)
}

/// Replaces the index between the markers in a README's text, leaving the rest of the text alone:
/// the region runs from the first start marker to the first end marker, which has to come after it.
pub fn regenerate(path: String, text: &str, entries: &[ExampleEntry]) -> (updated: Result<String, ExampleIndexError>)
    ensures
        match (first_occurrence(text@, START_MARKER@), first_occurrence(text@, END_MARKER@)) {
            (Some(start), Some(end)) => if start < end {
                updated matches Ok(u) && u@ == spliced(text@, start, end, render_of(entries@))
            } else {
                updated == Err::<String, ExampleIndexError>(ExampleIndexError::NoMarkers { path })
            },
            _ => updated == Err::<String, ExampleIndexError>(ExampleIndexError::NoMarkers { path }),
        },
{
    let start = find(text, START_MARKER);
    let end = find(text, END_MARKER);
    let (start, end) = match (start, end) {
        (Some(start), Some(end)) => {
            if start < end {
                (start, end)
            } else {
                return Err(ExampleIndexError::NoMarkers { path });
            }
        },
        _ => return Err(ExampleIndexError::NoMarkers { path }),
    };
    let n = text.unicode_len();
    let mut updated = text.substring_char(0, start).to_owned();
    updated.append(START_MARKER);
    updated.append("\n\n");
    updated.append(render(entries).as_str());
    updated.append("\n\n");
    updated.append(text.substring_char(end, n));
    assert(text@.subrange(0, start as int) =~= text@.take(start as int));
    assert(text@.subrange(end as int, n as int) =~= text@.skip(end as int));
    Ok(updated)
}

/// A pattern that occurs somewhere in a text has a first occurrence.
proof fn lemma_least_occurrence(text: Seq<char>, pattern: Seq<char>, at: int)
    requires
        occurs_at(text, pattern, at),
    ensures
        exists|first: int| first_at(text, pattern, first),
    decreases at,
{
    if forall|j: int| 0 <= j < at ==> !#[trigger] occurs_at(text, pattern, j) {
        assert(first_at(text, pattern, at));
    } else {
        let earlier = choose|j: int| 0 <= j < at && #[trigger] occurs_at(text, pattern, j);
        lemma_least_occurrence(text, pattern, earlier);
    }
}

/// Where `first_occurrence` says a pattern first occurs, it does.
pub proof fn lemma_first_occurrence_is_first(text: Seq<char>, pattern: Seq<char>)
    ensures
        match first_occurrence(text, pattern) {
            Some(at) => first_at(text, pattern, at),
            None => forall|at: int| !#[trigger] occurs_at(text, pattern, at),
        },
{
    if exists|at: int| #[trigger] occurs_at(text, pattern, at) {
        let some = choose|at: int| #[trigger] occurs_at(text, pattern, at);
        lemma_least_occurrence(text, pattern, some);
    }
}

/// A position where a pattern first occurs is the one `first_occurrence` names.
proof fn lemma_first_at_is_the_first_occurrence(text: Seq<char>, pattern: Seq<char>, at: int)
    requires
        first_at(text, pattern, at),
    ensures
        first_occurrence(text, pattern) == Some(at),
{
    assert(occurs_at(text, pattern, at));
    let chosen = choose|c: int| first_at(text, pattern, c);
    assert(first_at(text, pattern, chosen));
    if chosen < at {
        assert(!occurs_at(text, pattern, chosen));
    } else if chosen > at {
        assert(!occurs_at(text, pattern, at));
    }
}

/// Where the end marker starts in a README whose index was just regenerated.
pub open spec fn regenerated_end(start: int, index: Seq<char>) -> int {
    start + START_MARKER@.len() + 4 + index.len()
}

/// The markers' lengths and the characters the proofs below turn on.
proof fn lemma_marker_shapes()
    ensures
        START_MARKER@.len() == 23,
        END_MARKER@.len() == 21,
        "\n\n"@ == seq!['\n', '\n'],
        END_MARKER@[0] == '<',
        START_MARKER@[14] != END_MARKER@[14],
        forall|k: int| 0 < k < 23 ==> START_MARKER@[k] != '<',
        forall|k: int| 0 <= k < 21 ==> END_MARKER@[k] != '\n',
{
    reveal_strlit("<!-- examples:start -->");
    reveal_strlit("<!-- examples:end -->");
    reveal_strlit("\n\n");
    assert(START_MARKER@ =~= seq![
        '<', '!', '-', '-', ' ', 'e', 'x', 'a', 'm', 'p', 'l', 'e', 's', ':', 's', 't', 'a', 'r', 't', ' ', '-', '-', '>',
    ]);
    assert(END_MARKER@ =~= seq![
        '<', '!', '-', '-', ' ', 'e', 'x', 'a', 'm', 'p', 'l', 'e', 's', ':', 'e', 'n', 'd', ' ', '-', '-', '>',
    ]);
}

/// What a README whose region was just replaced holds, position by position.
proof fn lemma_spliced_layout(text: Seq<char>, start: int, end: int, index: Seq<char>)
    requires
        first_at(text, START_MARKER@, start),
        first_at(text, END_MARKER@, end),
        start < end,
    ensures
        ({
            let once = spliced(text, start, end, index);
            let found = regenerated_end(start, index);
            &&& once.len() == found + (text.len() - end)
            &&& forall|k: int| 0 <= k < start + 23 ==> #[trigger] once[k] == text[k]
            &&& forall|k: int| start + 23 <= k < start + 25 ==> #[trigger] once[k] == '\n'
            &&& forall|k: int| start + 25 <= k < start + 25 + index.len() ==> #[trigger] once[k] == index[k - start - 25]
            &&& forall|k: int| start + 25 + index.len() <= k < found ==> #[trigger] once[k] == '\n'
            &&& forall|k: int| found <= k < once.len() ==> #[trigger] once[k] == text[k - found + end]
        }),
{
    lemma_marker_shapes();
    let once = spliced(text, start, end, index);
    assert forall|k: int| 0 <= k < start + 23 implies #[trigger] once[k] == text[k] by {
        if k >= start {
            assert(text.subrange(start, start + 23)[k - start] == text[k]);
        }
    }
}

/// In a README whose region was just replaced, the start marker is still first where it was.
proof fn lemma_start_stays_first(text: Seq<char>, start: int, end: int, index: Seq<char>)
    requires
        first_at(text, START_MARKER@, start),
        first_at(text, END_MARKER@, end),
        start < end,
    ensures
        first_at(spliced(text, start, end, index), START_MARKER@, start),
{
    lemma_marker_shapes();
    lemma_spliced_layout(text, start, end, index);
    let once = spliced(text, start, end, index);
    assert(once.subrange(start, start + 23) =~= text.subrange(start, start + 23));
    assert forall|j: int| 0 <= j < start implies !#[trigger] occurs_at(once, START_MARKER@, j) by {
        if occurs_at(once, START_MARKER@, j) {
            assert(text.subrange(j, j + 23) =~= once.subrange(j, j + 23));
            assert(occurs_at(text, START_MARKER@, j));
        }
    }
}

/// In a README whose region was just replaced by an index without the end marker, the end marker
/// is first where the region now closes.
proof fn lemma_end_first_after_index(text: Seq<char>, start: int, end: int, index: Seq<char>)
    requires
        first_at(text, START_MARKER@, start),
        first_at(text, END_MARKER@, end),
        start < end,
        forall|at: int| !#[trigger] occurs_at(index, END_MARKER@, at),
    ensures
        first_at(spliced(text, start, end, index), END_MARKER@, regenerated_end(start, index)),
{
    lemma_marker_shapes();
    lemma_spliced_layout(text, start, end, index);
    let once = spliced(text, start, end, index);
    let found = regenerated_end(start, index);
    let e_marker = END_MARKER@;
    assert(once.subrange(found, found + 21) =~= text.subrange(end, end + 21));
    assert forall|j: int| 0 <= j < found implies !#[trigger] occurs_at(once, e_marker, j) by {
        if occurs_at(once, e_marker, j) {
            let window = once.subrange(j, j + 21);
            assert(window[0] == once[j]);
            if j < start + 2 {
                assert(text.subrange(j, j + 21) =~= window);
                assert(occurs_at(text, e_marker, j));
            } else if j == start {
                assert(window[14] == once[start + 14]);
            } else if j < start + 23 {
                assert(once[j] == text[j]);
                assert(text.subrange(start, start + 23)[j - start] == text[j]);
            } else if j < start + 25 {
            } else if j + 21 <= start + 25 + index.len() {
                assert(index.subrange(j - start - 25, j - start - 25 + 21) =~= window);
                assert(occurs_at(index, e_marker, j - start - 25));
            } else if j < start + 25 + index.len() {
                let k = start + 25 + index.len() - j;
                assert(window[k] == once[start + 25 + index.len()]);
            } else {
            }
        }
    }
}

/// Regenerating the index is idempotent: in a README whose region was just replaced by an index,
/// the markers are found where the replacement put them, and replacing the region again by the
/// same index gives the same text. It holds for every index that does not itself hold the end
/// marker, which would otherwise close the region early.
pub proof fn lemma_regenerating_twice_changes_nothing(text: Seq<char>, index: Seq<char>)
    requires
        first_occurrence(text, START_MARKER@) matches Some(start) && first_occurrence(text, END_MARKER@) matches Some(end)
            && start < end,
        forall|at: int| !#[trigger] occurs_at(index, END_MARKER@, at),
    ensures
        ({
            let start = first_occurrence(text, START_MARKER@)->0;
            let end = first_occurrence(text, END_MARKER@)->0;
            let once = spliced(text, start, end, index);
            &&& first_occurrence(once, START_MARKER@) == Some(start)
            &&& first_occurrence(once, END_MARKER@) == Some(regenerated_end(start, index))
            &&& spliced(once, start, regenerated_end(start, index), index) == once
        }),
{
    lemma_first_occurrence_is_first(text, START_MARKER@);
    lemma_first_occurrence_is_first(text, END_MARKER@);
    let start = first_occurrence(text, START_MARKER@)->0;
    let end = first_occurrence(text, END_MARKER@)->0;
    let once = spliced(text, start, end, index);
    let found = regenerated_end(start, index);
    lemma_start_stays_first(text, start, end, index);
    lemma_first_at_is_the_first_occurrence(once, START_MARKER@, start);
    lemma_end_first_after_index(text, start, end, index);
    lemma_first_at_is_the_first_occurrence(once, END_MARKER@, found);
    lemma_marker_shapes();
    lemma_spliced_layout(text, start, end, index);
    assert(once.take(start) =~= text.take(start));
    assert(once.skip(found) =~= text.skip(end));
    assert(spliced(once, start, found, index) =~= once);
}

/// What an index failure prints as, where `detail` is what the operating system's failure, if any,
/// prints as.
pub open spec fn example_index_message(error: ExampleIndexError, detail: Seq<char>) -> Seq<char> {
    match error {
        ExampleIndexError::Unreadable { path, .. } => "cannot read "@ + path@ + ": "@ + detail,
        ExampleIndexError::NoMarkers { path } => path@ + " has no "@ + START_MARKER@ + " and "@ + END_MARKER@
            + " pair"@,
        ExampleIndexError::Unwritable { path, .. } => "cannot write "@ + path@ + ": "@ + detail,
    }
}

impl ExampleIndexError {
    /// What the failure prints as, given what the operating system's failure, if any, prints as.
    pub fn describe(&self, detail: &str) -> (text: String)
        ensures
            text@ == example_index_message(*self, detail@),
    {
        let mut text = String::new();
        match self {
            ExampleIndexError::Unreadable { path, .. } => {
                text.append("cannot read ");
                text.append(path.as_str());
                text.append(": ");
                text.append(detail);
            },
            ExampleIndexError::NoMarkers { path } => {
                text.append(path.as_str());
                text.append(" has no ");
                text.append(START_MARKER);
                text.append(" and ");
                text.append(END_MARKER);
                text.append(" pair");
            },
            ExampleIndexError::Unwritable { path, .. } => {
                text.append("cannot write ");
                text.append(path.as_str());
                text.append(": ");
                text.append(detail);
            },
        }
        text
    }

    /// What the failure prints as: exactly for a README without its markers, and with the operating
    /// system's words for one that could not be read or written.
    pub fn to_string(&self) -> (text: String)
        ensures
            exists|detail: Seq<char>| text@ == example_index_message(*self, detail),
            *self is NoMarkers ==> text@ == example_index_message(*self, Seq::empty()),
    {
        let detail = match self {
            ExampleIndexError::Unreadable { source, .. } => io_error_text(source),
            ExampleIndexError::Unwritable { source, .. } => io_error_text(source),
            ExampleIndexError::NoMarkers { .. } => String::new(),
        };
        let text = self.describe(detail.as_str());
        assert(text@ == example_index_message(*self, detail@));
        text
    }
}

/// The index of a single example is that example's block.
pub proof fn lemma_the_index_of_one_example_is_its_block(entry: ExampleEntry)
    ensures
        render_of(seq![entry]) == block_of(entry),
{
    assert(seq![entry].map_values(|entry: ExampleEntry| block_of(entry)) =~= seq![block_of(entry)]);
}

/// The index keeps the reading order: an example that comes after the others in that order is
/// indexed after all of theirs, its block following theirs past a blank line.
pub proof fn lemma_a_later_example_is_indexed_after_the_others(entries: Seq<ExampleEntry>, entry: ExampleEntry)
    requires
        entries.len() > 0,
    ensures
        render_of(entries.push(entry)) == render_of(entries) + "\n\n"@ + block_of(entry),
{
    let blocks = entries.map_values(|entry: ExampleEntry| block_of(entry));
    assert(entries.push(entry).map_values(|entry: ExampleEntry| block_of(entry)) =~= blocks.push(block_of(entry)));
    lemma_join_push(blocks, block_of(entry), "\n\n"@);
}

/// Badges float from the right edge inwards, so they are written in the reverse of the declared
/// order: a format declared after the others has its badge written before theirs.
pub proof fn lemma_a_later_format_is_badged_first(formats: Seq<SourceFormat>, format: SourceFormat)
    ensures
        badges_of(formats.push(format)) == seq![badge_text(format)] + badges_of(formats),
{
    assert(formats.push(format).reverse() =~= seq![format] + formats.reverse());
    assert(badges_of(formats.push(format)) =~= seq![badge_text(format)] + badges_of(formats));
}

} // verus!
