//! A source format an example ingests.
use vstd::prelude::*;
use vstd::string::*;

verus! {

/// A source format an example ingests.
///
/// The variants name formats Cassiopeia reads, and the printed form is the token the CLI's
/// `--type` flag and a manifest's `format` field use.
#[derive(Debug, Clone, Copy, PartialEq, Eq, Structural)]
pub enum SourceFormat {
    /// Delimited text, with or without a header row.
    Csv,
    /// A JSON document, typically a top-level array of records.
    Json,
    /// `GeoJSON` features, each with a geometry.
    ///
    /// Kebab-case would write this `geo-json`, which Cassiopeia accepts only as a legacy alias. The
    /// token the `--type` flag and a manifest's `format` field take is `geojson`, so that is what a
    /// descriptor declares and what the index shows.
    GeoJson,
    /// KML placemarks and folders.
    Kml,
    /// A zipped KML archive.
    Kmz,
    /// An XML document.
    Xml,
    /// A zipped ESRI shapefile.
    Shapefile,
    /// GRIB edition 1, which needs ecCodes on the host.
    Grib1,
    /// GRIB edition 2.
    Grib2,
}

/// The token a format is written as.
pub open spec fn format_token(format: SourceFormat) -> Seq<char> {
    match format {
        SourceFormat::Csv => "csv"@,
        SourceFormat::Json => "json"@,
        SourceFormat::GeoJson => "geojson"@,
        SourceFormat::Kml => "kml"@,
        SourceFormat::Kmz => "kmz"@,
        SourceFormat::Xml => "xml"@,
        SourceFormat::Shapefile => "shapefile"@,
        SourceFormat::Grib1 => "grib1"@,
        SourceFormat::Grib2 => "grib2"@,
    }
}

/// Every format, in the order they are declared.
pub open spec fn every_format() -> Seq<SourceFormat> {
    seq![
        SourceFormat::Csv,
        SourceFormat::Json,
        SourceFormat::GeoJson,
        SourceFormat::Kml,
        SourceFormat::Kmz,
        SourceFormat::Xml,
        SourceFormat::Shapefile,
        SourceFormat::Grib1,
        SourceFormat::Grib2,
    ]
}

impl SourceFormat {
    /// The token Cassiopeia takes for the format.
    pub fn to_string(&self) -> (text: String)
        ensures
            text@ == format_token(*self),
    {
        match self {
            SourceFormat::Csv => "csv".to_owned(),
            SourceFormat::Json => "json".to_owned(),
            SourceFormat::GeoJson => "geojson".to_owned(),
            SourceFormat::Kml => "kml".to_owned(),
            SourceFormat::Kmz => "kmz".to_owned(),
            SourceFormat::Xml => "xml".to_owned(),
            SourceFormat::Shapefile => "shapefile".to_owned(),
            SourceFormat::Grib1 => "grib1".to_owned(),
            SourceFormat::Grib2 => "grib2".to_owned(),
        }
    }

    /// Every format Cassiopeia reads, in the order they are declared.
    pub fn iter() -> (formats: Vec<SourceFormat>)
        ensures
            formats@ == every_format(),
    {
        let formats = vec![
            SourceFormat::Csv,
            SourceFormat::Json,
            SourceFormat::GeoJson,
            SourceFormat::Kml,
            SourceFormat::Kmz,
            SourceFormat::Xml,
            SourceFormat::Shapefile,
            SourceFormat::Grib1,
            SourceFormat::Grib2,
        ];
        assert(formats@ =~= every_format());
        formats
    }

    /// Reads the token a descriptor declares a format with.
    pub fn from_token(token: &str) -> (format: Option<SourceFormat>)
        ensures
            match format {
                Some(format) => format_token(format) == token@,
                None => forall|f: SourceFormat| format_token(f) != token@,
            },
    {
        let formats = SourceFormat::iter();
        let mut i: usize = 0;
        while i < formats.len()
            invariant
                formats@ == every_format(),
                i <= formats.len(),
                forall|j: int| 0 <= j < i ==> format_token(#[trigger] every_format()[j]) != token@,
            decreases formats.len() - i,
        {
            let candidate = formats[i];
            let text = candidate.to_string();
            if crate::text::same(text.as_str(), token) {
                return Some(candidate);
            }
            i += 1;
        }
        assert forall|f: SourceFormat| format_token(f) != token@ by {
            assert(every_format().contains(f) ==> format_token(f) != token@);
            match f {
                SourceFormat::Csv => assert(every_format()[0] == f),
                SourceFormat::Json => assert(every_format()[1] == f),
                SourceFormat::GeoJson => assert(every_format()[2] == f),
                SourceFormat::Kml => assert(every_format()[3] == f),
                SourceFormat::Kmz => assert(every_format()[4] == f),
                SourceFormat::Xml => assert(every_format()[5] == f),
                SourceFormat::Shapefile => assert(every_format()[6] == f),
                SourceFormat::Grib1 => assert(every_format()[7] == f),
                SourceFormat::Grib2 => assert(every_format()[8] == f),
            }
        }
        None
    }
}

/// No two formats are written with the same token.
pub proof fn lemma_tokens_are_distinct(a: SourceFormat, b: SourceFormat)
    ensures
        format_token(a) == format_token(b) ==> a == b,
{
    reveal_strlit("csv");
    reveal_strlit("json");
    reveal_strlit("geojson");
    reveal_strlit("kml");
    reveal_strlit("kmz");
    reveal_strlit("xml");
    reveal_strlit("shapefile");
    reveal_strlit("grib1");
    reveal_strlit("grib2");
    if format_token(a) == format_token(b) && a != b {
        let (x, y) = (format_token(a), format_token(b));
        assert(x.len() == y.len());
        assert(x[x.len() - 1] == y[y.len() - 1]);
        assert(x[0] == y[0]);
        assert(x[1] == y[1]);
        assert(x[2] == y[2]);
    }
}

/// Every format reads back from the token it prints.
pub proof fn lemma_token_reads_back(format: SourceFormat)
    ensures
        forall|other: SourceFormat| format_token(other) == format_token(format) ==> other == format,
{
    assert forall|other: SourceFormat| format_token(other) == format_token(format) implies other == format by {
        lemma_tokens_are_distinct(other, format);
    }
}

} // verus!
