//! The examples on disk: finding them, ordering them, and resolving what the user typed.
use vstd::prelude::*;
use crate::descriptor::{Descriptor, DescriptorError, descriptor_message};
use crate::outside::io_error_text;
use crate::example_name::{ExampleName, ExampleNameError, example_name_message, is_example_name};
use crate::example_selector::ExampleSelector;
use crate::text::{chars_of, concat, has_prefix, join, seq_join, starts_with, texts};

verus! {

/// The directory every example lives under, relative to the repository root.
pub const EXAMPLES_DIRECTORY: &'static str = "examples";

/// One example on disk: where it is, what it is called, and what it declares.
#[derive(Debug)]
pub struct ExampleEntry {
    /// The directory name, such as `01-json-field-mapping`.
    pub name: ExampleName,
    /// The absolute path to the example directory.
    pub directory: String,
    /// The parsed descriptor.
    pub descriptor: Descriptor,
}

/// Why the examples could not be listed.
#[derive(Debug)]
pub enum ListingError {
    /// The working directory could not be read.
    WorkingDirectory {
        /// The underlying filesystem failure.
        source: std::io::Error,
    },
    /// No ancestor of the working directory holds an `examples` directory.
    NoRepositoryRoot {
        /// Where the search started.
        start: String,
    },
    /// A directory could not be listed.
    UnreadableDirectory {
        /// The directory that was listed.
        path: String,
        /// The underlying filesystem failure.
        source: std::io::Error,
    },
    /// A directory name is not usable text.
    UnnamedDirectory {
        /// The directory in question.
        path: String,
    },
    /// A directory sits among the examples under a name no example may carry.
    Name(ExampleNameError),
    /// Nothing matched what the user typed.
    NoSuchExample {
        /// What the user typed.
        wanted: ExampleSelector,
    },
    /// Several examples matched what the user typed.
    AmbiguousExample {
        /// What the user typed.
        wanted: ExampleSelector,
        /// The examples it could have meant.
        candidates: Vec<ExampleName>,
    },
    /// The matched example's descriptor could not be read.
    Descriptor(DescriptorError),
}

/// The final component of a path, as `Path::file_name` reads it: `None` for a path that ends in
/// `..` or has no component at all.
pub uninterp spec fn file_name_of(path: Seq<char>) -> Option<Seq<char>>;

/// The final component of a path, through `Path::file_name`; a component of a `&str` is always
/// valid UTF-8, so `OsStr::to_str` never refuses it.
#[verifier::external_body]
pub(crate) fn file_name(path: &str) -> (name: Option<String>)
    ensures
        match name {
            Some(n) => file_name_of(path@) == Some(n@),
            None => file_name_of(path@) is None,
        },
{
    std::path::Path::new(path).file_name().and_then(|name| name.to_str()).map(|name| name.to_owned())
}

/// Loads the example rooted at a directory, from the descriptor read out of it: the example is
/// named after its directory.
pub fn entry_at(directory: String, descriptor: Descriptor) -> (entry: Result<ExampleEntry, ListingError>)
    ensures
        match entry {
            Ok(e) => file_name_of(directory@) matches Some(n) && n == e.name@ && is_example_name(n)
                && e.directory == directory && e.descriptor == descriptor,
            Err(ListingError::UnnamedDirectory { path }) => file_name_of(directory@) is None && path == directory,
            Err(ListingError::Name(ExampleNameError::NotKebabCase { value })) => file_name_of(directory@) == Some(
                value@,
            ) && !is_example_name(value@),
            Err(ListingError::Name(ExampleNameError::NoOrdinal { value })) => file_name_of(directory@) == Some(value@)
                && !is_example_name(value@),
            Err(_) => false,
        },
{
    let found = file_name(directory.as_str());
    let text = match found {
        Some(text) => text,
        None => return Err(ListingError::UnnamedDirectory { path: directory }),
    };
    match ExampleName::try_from(text) {
        Ok(name) => Ok(ExampleEntry { name, directory, descriptor }),
        Err(refused) => Err(ListingError::Name(refused)),
    }
}

/// Whether a name is what the user typed: the whole directory name, or its ordinal.
pub open spec fn selects(name: Seq<char>, wanted: Seq<char>) -> bool {
    name == wanted || has_prefix(name, wanted + "-"@)
}

/// The entries a selector matches, in their order.
pub open spec fn matching(entries: Seq<ExampleEntry>, wanted: Seq<char>) -> Seq<ExampleEntry>
    decreases entries.len(),
{
    if entries.len() == 0 {
        Seq::empty()
    } else if selects(entries.last().name@, wanted) {
        matching(entries.drop_last(), wanted).push(entries.last())
    } else {
        matching(entries.drop_last(), wanted)
    }
}

/// The names of some entries.
pub open spec fn names_of(entries: Seq<ExampleEntry>) -> Seq<ExampleName> {
    entries.map_values(|e: ExampleEntry| e.name)
}

/// Resolves what the user typed to one example among those listed: its directory name, or just
/// its ordinal.
pub fn select(entries: Vec<ExampleEntry>, wanted: &ExampleSelector) -> (entry: Result<ExampleEntry, ListingError>)
    ensures
        matching(entries@, wanted@).len() == 1 ==> entry == Ok::<ExampleEntry, ListingError>(
            matching(entries@, wanted@)[0],
        ),
        matching(entries@, wanted@).len() == 0 ==> entry == Err::<ExampleEntry, ListingError>(
            ListingError::NoSuchExample { wanted: *wanted },
        ),
        matching(entries@, wanted@).len() > 1 ==> (entry matches Err(
            ListingError::AmbiguousExample { wanted: w, candidates },
        ) && w == *wanted && candidates@ == names_of(matching(entries@, wanted@))),
{
    let ordinal = concat(wanted.as_str(), "-");
    let ghost all = entries@;
    let mut rest = entries;
    let n = rest.len();
    let mut matched: Vec<ExampleEntry> = Vec::new();
    let mut matched_names: Vec<ExampleName> = Vec::new();
    let mut k: usize = 0;
    while rest.len() > 0
        invariant
            ordinal@ == wanted@ + "-"@,
            all.len() == n,
            k + rest@.len() == all.len(),
            rest@ == all.skip(k as int),
            matched@ == matching(all.take(k as int), wanted@),
            matched_names@ == names_of(matched@),
        decreases rest.len(),
    {
        let candidate = rest.remove(0);
        assert(all.take(k + 1).drop_last() =~= all.take(k as int));
        assert(all.take(k + 1).last() == candidate);
        let hit = crate::text::same(candidate.name.as_str(), wanted.as_str()) || starts_with(
            candidate.name.as_str(),
            ordinal.as_str(),
        );
        if hit {
            let ghost before = matched_names@;
            matched_names.push(candidate.name.clone());
            matched.push(candidate);
            assert(matched_names@ =~= names_of(matched@));
        }
        k += 1;
        assert(rest@ =~= all.skip(k as int));
    }
    assert(all.take(k as int) =~= all);
    if matched.len() == 1 {
        let only = matched.remove(0);
        Ok(only)
    } else if matched.len() == 0 {
        Err(ListingError::NoSuchExample { wanted: wanted.clone() })
    } else {
        Err(ListingError::AmbiguousExample { wanted: wanted.clone(), candidates: matched_names })
    }
}

/// The names of every example, as a continuous integration matrix reads them.
///
/// Nothing is left out. An example that cannot be checked unattended is an example nothing checks,
/// and the descriptor has no way to say so.
pub fn names(entries: &[ExampleEntry]) -> (matrix: Vec<&ExampleName>)
    ensures
        matrix@.len() == entries@.len(),
        forall|i: int| 0 <= i < entries@.len() ==> *#[trigger] matrix@[i] == entries@[i].name,
{
    let mut matrix: Vec<&ExampleName> = Vec::new();
    let mut i: usize = 0;
    while i < entries.len()
        invariant
            i <= entries@.len(),
            matrix@.len() == i,
            forall|j: int| 0 <= j < i ==> *#[trigger] matrix@[j] == entries@[j].name,
        decreases entries.len() - i,
    {
        matrix.push(&entries[i].name);
        i += 1;
    }
    matrix
}

/// One line of the listing a reader sees: the example's name, two spaces, and what it shows.
pub open spec fn summary_line(entry: ExampleEntry) -> Seq<char> {
    entry.name@ + "  "@ + entry.descriptor.example.summary@ + "\n"@
}

/// The listing a reader sees, one line per example.
pub open spec fn summary_of(entries: Seq<ExampleEntry>) -> Seq<char>
    decreases entries.len(),
{
    if entries.len() == 0 {
        Seq::empty()
    } else {
        summary_of(entries.drop_last()) + summary_line(entries.last())
    }
}

/// The listing a reader sees: one example per line, with what it shows.
pub fn summary(entries: &[ExampleEntry]) -> (listing: String)
    ensures
        listing@ == summary_of(entries@),
{
    let mut listing = String::new();
    let mut i: usize = 0;
    while i < entries.len()
        invariant
            i <= entries@.len(),
            listing@ == summary_of(entries@.take(i as int)),
        decreases entries.len() - i,
    {
        assert(entries@.take(i + 1).drop_last() =~= entries@.take(i as int));
        let entry = &entries[i];
        listing.append(entry.name.as_str());
        listing.append("  ");
        listing.append(entry.descriptor.example.summary.as_str());
        listing.append("\n");
        i += 1;
    }
    assert(entries@.take(entries@.len() as int) =~= entries@);
    listing
}

/// Whether one text comes before another in byte order, or is the same: character by character,
/// with a text before every longer text it opens.
pub open spec fn precedes(a: Seq<char>, b: Seq<char>) -> bool
    decreases a.len(),
{
    if a.len() == 0 {
        true
    } else if b.len() == 0 {
        false
    } else if a[0] != b[0] {
        (a[0] as int) < (b[0] as int)
    } else {
        precedes(a.drop_first(), b.drop_first())
    }
}

/// Of two texts, one comes before the other.
pub proof fn lemma_precedes_total(a: Seq<char>, b: Seq<char>)
    ensures
        precedes(a, b) || precedes(b, a),
    decreases a.len(),
{
    if a.len() > 0 && b.len() > 0 && a[0] == b[0] {
        lemma_precedes_total(a.drop_first(), b.drop_first());
    }
}

/// Coming before is transitive.
pub proof fn lemma_precedes_transitive(a: Seq<char>, b: Seq<char>, c: Seq<char>)
    requires
        precedes(a, b),
        precedes(b, c),
    ensures
        precedes(a, c),
    decreases a.len(),
{
    if a.len() > 0 && b.len() > 0 && c.len() > 0 && a[0] == b[0] && b[0] == c[0] {
        lemma_precedes_transitive(a.drop_first(), b.drop_first(), c.drop_first());
    }
}

/// Whether a list of texts is in byte order.
pub open spec fn in_order(list: Seq<Seq<char>>) -> bool {
    forall|i: int, j: int| 0 <= i < j < list.len() ==> precedes(#[trigger] list[i], #[trigger] list[j])
}

/// Whether one text comes before another in byte order, or is the same.
fn comes_before(a: &str, b: &str) -> (found: bool)
    ensures
        found == precedes(a@, b@),
{
    let left = chars_of(a);
    let right = chars_of(b);
    let mut i: usize = 0;
    assert(a@.skip(0) =~= a@);
    assert(b@.skip(0) =~= b@);
    while i < left.len() && i < right.len() && left[i] == right[i]
        invariant
            left@ == a@,
            right@ == b@,
            i <= left@.len(),
            i <= right@.len(),
            precedes(a@, b@) == precedes(a@.skip(i as int), b@.skip(i as int)),
        decreases left.len() - i,
    {
        assert(a@.skip(i as int).drop_first() =~= a@.skip(i + 1));
        assert(b@.skip(i as int).drop_first() =~= b@.skip(i + 1));
        i += 1;
    }
    if i == left.len() {
        true
    } else if i == right.len() {
        false
    } else {
        left[i] < right[i]
    }
}

/// Example directory names in reading order, which is the byte order of the names: the ordinal
/// that opens each name is what sets it.
pub fn reading_order(names: Vec<String>) -> (ordered: Vec<String>)
    ensures
        texts(ordered@).to_multiset() == texts(names@).to_multiset(),
        in_order(texts(ordered@)),
{
    broadcast use vstd::seq_lib::group_to_multiset_ensures;
    let mut ordered: Vec<String> = Vec::new();
    let mut i: usize = 0;
    while i < names.len()
        invariant
            i <= names@.len(),
            texts(ordered@).to_multiset() == texts(names@.take(i as int)).to_multiset(),
            in_order(texts(ordered@)),
        decreases names.len() - i,
    {
        let name = names[i].clone();
        let ghost before = texts(ordered@);
        let mut p: usize = 0;
        while p < ordered.len() && comes_before(ordered[p].as_str(), name.as_str())
            invariant
                p <= ordered@.len(),
                texts(ordered@) == before,
                forall|j: int| 0 <= j < p ==> precedes(#[trigger] before[j], name@),
            decreases ordered.len() - p,
        {
            p += 1;
        }
        proof {
            if p < ordered@.len() {
                lemma_precedes_total(before[p as int], name@);
                assert forall|j: int| p <= j < before.len() implies precedes(name@, #[trigger] before[j]) by {
                    if j > p {
                        lemma_precedes_transitive(name@, before[p as int], before[j]);
                    }
                }
            }
        }
        ordered.insert(p, name);
        proof {
            let after = texts(ordered@);
            assert(after =~= before.insert(p as int, names@[i as int]@));
            vstd::seq_lib::to_multiset_insert(before, p as int, names@[i as int]@);
            let taken = texts(names@.take(i as int));
            assert(texts(names@.take(i + 1)) =~= taken.push(names@[i as int]@));
            taken.to_multiset_ensures();
            assert(texts(ordered@).to_multiset() =~= texts(names@.take(i + 1)).to_multiset());
            assert forall|a: int, b: int| 0 <= a < b < after.len() implies precedes(
                #[trigger] after[a],
                #[trigger] after[b],
            ) by {
                if a < p && b == p {
                } else if a < p && b > p {
                    lemma_precedes_transitive(before[a], name@, before[b - 1]);
                } else if a == p {
                } else if b < p {
                } else {
                    assert(after[a] == before[a - 1]);
                    assert(after[b] == before[b - 1]);
                }
            }
        }
        i += 1;
    }
    assert(names@.take(names@.len() as int) =~= names@);
    ordered
}

/// The names of some examples, as text.
pub open spec fn name_texts(names: Seq<ExampleName>) -> Seq<Seq<char>> {
    names.map_values(|name: ExampleName| name@)
}

/// What a listing failure prints as, where `detail` is what the operating system's or the TOML
/// parser's failure, if any, prints as.
pub open spec fn listing_message(error: ListingError, detail: Seq<char>) -> Seq<char> {
    match error {
        ListingError::WorkingDirectory { .. } => "cannot determine the working directory: "@ + detail,
        ListingError::NoRepositoryRoot { start } => "no examples directory in "@ + start@
            + " or any directory above it"@,
        ListingError::UnreadableDirectory { path, .. } => "cannot read "@ + path@ + ": "@ + detail,
        ListingError::UnnamedDirectory { path } => path@ + " has no usable directory name"@,
        ListingError::Name(refused) => example_name_message(refused),
        ListingError::NoSuchExample { wanted } => "no example matches "@ + wanted@,
        ListingError::AmbiguousExample { wanted, candidates } => wanted@ + " matches several examples: "@
            + seq_join(name_texts(candidates@), ", "@),
        ListingError::Descriptor(refused) => descriptor_message(refused, detail),
    }
}

/// Whether a listing failure wraps one of the operating system's or the TOML parser's, whose words
/// come from outside the library.
pub open spec fn listing_wraps_outside(error: ListingError) -> bool {
    error is WorkingDirectory || error is UnreadableDirectory || error is Descriptor
}

/// The names of some examples, as strings.
fn name_strings(names: &Vec<ExampleName>) -> (found: Vec<String>)
    ensures
        texts(found@) == name_texts(names@),
{
    let mut found: Vec<String> = Vec::new();
    let mut i: usize = 0;
    while i < names.len()
        invariant
            i <= names.len(),
            found@.len() == i,
            texts(found@) == name_texts(names@.take(i as int)),
        decreases names.len() - i,
    {
        let ghost before = found@;
        found.push(names[i].to_string());
        assert(texts(found@).len() == i + 1);
        assert forall|j: int| 0 <= j < i + 1 implies texts(found@)[j] == name_texts(names@.take(i + 1))[j] by {
            if j < i {
                assert(found@[j] == before[j]);
                assert(texts(before)[j] == name_texts(names@.take(i as int))[j]);
            }
        }
        assert(texts(found@) =~= name_texts(names@.take(i + 1)));
        i += 1;
    }
    assert(names@.take(names.len() as int) =~= names@);
    found
}

impl ListingError {
    /// What the failure prints as, given what the failure it wraps, if any, prints as.
    pub fn describe(&self, detail: &str) -> (text: String)
        ensures
            text@ == listing_message(*self, detail@),
    {
        match self {
            ListingError::Name(refused) => refused.to_string(),
            ListingError::Descriptor(refused) => refused.describe(detail),
            ListingError::WorkingDirectory { .. } => concat("cannot determine the working directory: ", detail),
            ListingError::NoRepositoryRoot { start } => {
                let mut text = String::new();
                text.append("no examples directory in ");
                text.append(start.as_str());
                text.append(" or any directory above it");
                text
            },
            ListingError::UnreadableDirectory { path, .. } => {
                let mut text = String::new();
                text.append("cannot read ");
                text.append(path.as_str());
                text.append(": ");
                text.append(detail);
                text
            },
            ListingError::UnnamedDirectory { path } => concat(path.as_str(), " has no usable directory name"),
            ListingError::NoSuchExample { wanted } => concat("no example matches ", wanted.as_str()),
            ListingError::AmbiguousExample { wanted, candidates } => {
                let mut text = String::new();
                text.append(wanted.as_str());
                text.append(" matches several examples: ");
                text.append(join(&name_strings(candidates), ", ").as_str());
                text
            },
        }
    }

    /// What the failure it wraps, if any, prints as, in that failure's own words.
    fn outside_detail(&self) -> (detail: String)
        ensures
            !listing_wraps_outside(*self) ==> detail@ == Seq::<char>::empty(),
    {
        match self {
            ListingError::WorkingDirectory { source } => io_error_text(source),
            ListingError::UnreadableDirectory { source, .. } => io_error_text(source),
            ListingError::Descriptor(refused) => refused.outside_detail(),
            _ => String::new(),
        }
    }

    /// What the failure prints as: exactly for a missing, unnamed, or ambiguous example, and with
    /// the operating system's or the parser's words for what could not be read.
    pub fn to_string(&self) -> (text: String)
        ensures
            exists|detail: Seq<char>| text@ == listing_message(*self, detail),
            !listing_wraps_outside(*self) ==> text@ == listing_message(*self, Seq::empty()),
    {
        let detail = self.outside_detail();
        let text = self.describe(detail.as_str());
        assert(text@ == listing_message(*self, detail@));
        text
    }
}

} // verus!
