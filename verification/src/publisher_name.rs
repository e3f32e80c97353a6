//! Who publishes a dataset.
use vstd::prelude::*;
use crate::text::{blank, is_blank};

verus! {

/// The organisation, agency, or repository a dataset is published by.
///
/// Recorded per dataset because the licence a dataset carries is the publisher's, not this
/// repository's, and `NOTICE.md` has to be able to name them.
#[derive(Debug, PartialEq, Eq)]
pub struct PublisherName(String);

/// Why a dataset's publisher could not be read.
#[derive(Debug, PartialEq, Eq)]
pub enum PublisherNameError {
    /// A dataset has to name who published it.
    Empty,
}

impl View for PublisherName {
    type V = Seq<char>;

    closed spec fn view(&self) -> Seq<char> {
        self.0@
    }
}

impl Clone for PublisherName {
    fn clone(&self) -> (copy: Self)
        ensures
            copy == *self,
    {
        PublisherName(self.0.clone())
    }
}

impl PublisherName {
    /// Every value holds text that does not trim down to nothing.
    pub closed spec fn well_formed(self) -> bool {
        !is_blank(self.0@)
    }

    /// The text as it is printed.
    pub fn to_string(&self) -> (text: String)
        ensures
            text@ == self@,
    {
        self.0.clone()
    }

    /// Reads the text, refusing one that is blank once trimmed.
    pub fn try_from(value: String) -> (read: Result<PublisherName, PublisherNameError>)
        ensures
            match read {
                Ok(read) => !is_blank(value@) && read@ == value@ && read.well_formed(),
                Err(error) => is_blank(value@) && error == PublisherNameError::Empty,
            },
    {
        if blank(value.as_str()) {
            Err(PublisherNameError::Empty)
        } else {
            Ok(PublisherName(value))
        }
    }
}

} // verus!
