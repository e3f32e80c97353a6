//! What the documentation site needs to place the example pages.
use vstd::prelude::*;
use crate::example_name::ExampleName;
use crate::listing::ExampleEntry;

verus! {

/// One example page, as the documentation site needs it to place the page.
///
/// The site reads this instead of keeping its own list: order comes from the directory prefix, the
/// page title from `title`, and the sidebar entry from `label`, so an example is described once.
#[derive(Debug)]
pub struct PageMetadata {
    /// The example's directory, which the page is served under.
    pub directory: ExampleName,
    /// The page title, matching the H1 on the page.
    pub title: String,
    /// The sidebar entry.
    pub label: String,
    /// One sentence for an index of pages.
    pub summary: String,
}

/// Whether a page's metadata is what an entry declares.
pub open spec fn describes(page: PageMetadata, entry: ExampleEntry) -> bool {
    page.directory == entry.name && page.title == entry.descriptor.example.title && page.label
        == entry.descriptor.example.label && page.summary == entry.descriptor.example.summary
}

/// Renders the metadata the documentation site needs to place the example pages: one page per
/// entry, in the entries' order.
pub fn render(entries: &[ExampleEntry]) -> (pages: Vec<PageMetadata>)
    ensures
        pages@.len() == entries@.len(),
        forall|i: int| 0 <= i < entries@.len() ==> describes(#[trigger] pages@[i], entries@[i]),
{
    let mut pages: Vec<PageMetadata> = Vec::new();
    let mut i: usize = 0;
    while i < entries.len()
        invariant
            i <= entries@.len(),
            pages@.len() == i,
            forall|j: int| 0 <= j < i ==> describes(#[trigger] pages@[j], entries@[j]),
        decreases entries.len() - i,
    {
        let entry = &entries[i];
        pages.push(
            PageMetadata {
                directory: entry.name.clone(),
                title: entry.descriptor.example.title.clone(),
                label: entry.descriptor.example.label.clone(),
                summary: entry.descriptor.example.summary.clone(),
            },
        );
        i += 1;
    }
    pages
}

} // verus!
