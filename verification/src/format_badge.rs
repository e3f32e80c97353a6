//! A source format as the coloured badge the README index tags an example with.
use vstd::prelude::*;
use vstd::string::*;
use crate::source_format::{SourceFormat, format_token};
use crate::text::{replaced, replace_char};

verus! {

/// A source format as the coloured badge the README index tags an example with.
///
/// The colour belongs to the format rather than to the example, so the index is scannable by input:
/// every CSV example carries the same swatch. The badges are the same shape as the ones in the
/// README header, which is why no style is asked for: shields.io's default is what the rest uses.
///
/// The badge is written as an `<img>` rather than as a markdown image because it is floated to the
/// right edge of the entry, which markdown has no syntax for: `align="right"` is the presentational
/// attribute browsers map to `float: right`, and it sidesteps aligning a badge against text
/// altogether. It is emitted before the title so the float is placed before the line is laid out.
#[derive(Debug, Clone, Copy, PartialEq, Eq, Structural)]
pub struct FormatBadge(SourceFormat);

/// The colour a source format is tagged with.
pub open spec fn colour_of(format: SourceFormat) -> Seq<char> {
    match format {
        SourceFormat::Csv => "1d6f42"@,
        SourceFormat::Json => "d97706"@,
        SourceFormat::GeoJson => "2563eb"@,
        SourceFormat::Kml => "7c3aed"@,
        SourceFormat::Kmz => "9333ea"@,
        SourceFormat::Xml => "db2777"@,
        SourceFormat::Shapefile => "92400e"@,
        SourceFormat::Grib1 => "0f766e"@,
        SourceFormat::Grib2 => "0d9488"@,
    }
}

/// The badge text as shields.io needs it written: a dash separates the message from the colour in
/// a shields.io path, so a dash inside the message is doubled to survive the split.
pub open spec fn escaped_of(token: Seq<char>) -> Seq<char> {
    replaced(token, '-', "--"@)
}

/// The `<img>` element a format's badge is written as.
pub open spec fn badge_text(format: SourceFormat) -> Seq<char> {
    "<img src=\"https://img.shields.io/badge/format-"@ + escaped_of(format_token(format)) + "-"@ + colour_of(format)
        + "\" alt=\"format: "@ + format_token(format) + "\" height=\"20\" align=\"right\">"@
}

/// The badge text as shields.io needs it written.
///
/// A dash separates the message from the colour in a shields.io path, so a dash inside the message
/// is doubled to survive the split.
pub fn escaped(token: &str) -> (text: String)
    ensures
        text@ == escaped_of(token@),
{
    replace_char(token, '-', "--")
}

/// The colour a source format is tagged with.
pub fn colour(format: SourceFormat) -> (swatch: &'static str)
    ensures
        swatch@ == colour_of(format),
{
    match format {
        SourceFormat::Csv => "1d6f42",
        SourceFormat::Json => "d97706",
        SourceFormat::GeoJson => "2563eb",
        SourceFormat::Kml => "7c3aed",
        SourceFormat::Kmz => "9333ea",
        SourceFormat::Xml => "db2777",
        SourceFormat::Shapefile => "92400e",
        SourceFormat::Grib1 => "0f766e",
        SourceFormat::Grib2 => "0d9488",
    }
}

impl FormatBadge {
    /// The badge for one format.
    pub fn from(format: SourceFormat) -> (badge: FormatBadge)
        ensures
            badge.format() == format,
    {
        FormatBadge(format)
    }

    /// The format the badge stands for.
    pub closed spec fn format(self) -> SourceFormat {
        self.0
    }

    /// The badge as the `<img>` element the index carries.
    pub fn to_string(&self) -> (text: String)
        ensures
            text@ == badge_text(self.format()),
    {
        let token = self.0.to_string();
        let mut text = String::new();
        text.append("<img src=\"https://img.shields.io/badge/format-");
        text.append(escaped(token.as_str()).as_str());
        text.append("-");
        text.append(colour(self.0));
        text.append("\" alt=\"format: ");
        text.append(token.as_str());
        text.append("\" height=\"20\" align=\"right\">");
        text
    }
}

/// No two formats share a colour, so the index stays scannable by input.
pub proof fn lemma_colours_are_distinct(a: SourceFormat, b: SourceFormat)
    ensures
        colour_of(a) == colour_of(b) ==> a == b,
{
    reveal_strlit("1d6f42");
    reveal_strlit("d97706");
    reveal_strlit("2563eb");
    reveal_strlit("7c3aed");
    reveal_strlit("9333ea");
    reveal_strlit("db2777");
    reveal_strlit("92400e");
    reveal_strlit("0f766e");
    reveal_strlit("0d9488");
    if colour_of(a) == colour_of(b) && a != b {
        let (x, y) = (colour_of(a), colour_of(b));
        assert(x[0] == y[0]);
        assert(x[1] == y[1]);
        assert(x[2] == y[2]);
    }
}

} // verus!
