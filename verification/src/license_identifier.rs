//! The terms a dataset is published under.
use vstd::prelude::*;
use crate::text::{blank, is_blank};

verus! {

/// The terms a dataset is published under, written as an SPDX identifier where one exists and as
/// the publisher's own wording where none does.
///
/// Recorded per dataset because the datasets are fetched from their publishers and are not covered
/// by this repository's own licence.
#[derive(Debug, PartialEq, Eq)]
pub struct LicenseIdentifier(String);

/// Why a dataset's terms could not be read.
#[derive(Debug, PartialEq, Eq)]
pub enum LicenseIdentifierError {
    /// A dataset whose terms are unknown says so with `Unspecified`, never with nothing.
    Empty,
}

impl View for LicenseIdentifier {
    type V = Seq<char>;

    closed spec fn view(&self) -> Seq<char> {
        self.0@
    }
}

impl Clone for LicenseIdentifier {
    fn clone(&self) -> (copy: Self)
        ensures
            copy == *self,
    {
        LicenseIdentifier(self.0.clone())
    }
}

impl LicenseIdentifier {
    /// Every value holds text that does not trim down to nothing.
    pub closed spec fn well_formed(self) -> bool {
        !is_blank(self.0@)
    }

    /// The text as it is printed.
    pub fn to_string(&self) -> (text: String)
        ensures
            text@ == self@,
    {
        self.0.clone()
    }

    /// Reads the text, refusing one that is blank once trimmed.
    pub fn try_from(value: String) -> (read: Result<LicenseIdentifier, LicenseIdentifierError>)
        ensures
            match read {
                Ok(read) => !is_blank(value@) && read@ == value@ && read.well_formed(),
                Err(error) => is_blank(value@) && error == LicenseIdentifierError::Empty,
            },
    {
        if blank(value.as_str()) {
            Err(LicenseIdentifierError::Empty)
        } else {
            Ok(LicenseIdentifier(value))
        }
    }
}

} // verus!
