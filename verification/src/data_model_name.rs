//! The name of an NGSI-LD data model.
use vstd::prelude::*;
use crate::text::{chars_of, is_alphanumeric, is_upper};

verus! {

/// The name of an NGSI-LD data model an example produces, such as `ChemicalElement`.
///
/// The name is the entity `type` and the stem of the file the run writes, so it is a domain value
/// rather than free text. NGSI-LD entity types are written in `UpperCamelCase` (ETSI GS CIM 009
/// v1.9.1, clause 4.6.2), which is also what the Smart Data Models catalog publishes them as.
#[derive(Debug, PartialEq, Eq, Hash)]
pub struct DataModelName(String);

/// Why a model name could not be read.
#[derive(Debug)]
pub enum DataModelNameError {
    /// The name is not the `UpperCamelCase` an NGSI-LD entity type is written in.
    NotUpperCamelCase {
        /// The name as it was written.
        value: String,
    },
}

/// `UpperCamelCase` as this library reads it: an ASCII capital first, and ASCII letters and digits
/// throughout.
pub open spec fn is_upper_camel_case(text: Seq<char>) -> bool {
    &&& text.len() > 0
    &&& is_upper(text[0])
    &&& forall|i: int| 0 <= i < text.len() ==> is_alphanumeric(#[trigger] text[i])
}

impl View for DataModelName {
    type V = Seq<char>;

    closed spec fn view(&self) -> Seq<char> {
        self.0@
    }
}

impl Clone for DataModelName {
    fn clone(&self) -> (copy: Self)
        ensures
            copy == *self,
    {
        DataModelName(self.0.clone())
    }
}

impl DataModelName {
    /// Every model name holds `UpperCamelCase` text.
    pub closed spec fn well_formed(self) -> bool {
        is_upper_camel_case(self.0@)
    }

    /// The name as it appears in an entity's `type` member.
    pub fn as_str(&self) -> (text: &str)
        ensures
            text@ == self@,
    {
        self.0.as_str()
    }

    /// The name as it is printed.
    pub fn to_string(&self) -> (text: String)
        ensures
            text@ == self@,
    {
        self.0.clone()
    }

    /// Reads a model name, refusing anything that is not `UpperCamelCase`.
    pub fn try_from(value: String) -> (name: Result<DataModelName, DataModelNameError>)
        ensures
            match name {
                Ok(name) => is_upper_camel_case(value@) && name@ == value@ && name.well_formed(),
                Err(DataModelNameError::NotUpperCamelCase { value: kept }) => !is_upper_camel_case(value@) && kept == value,
            },
    {
        let chars = chars_of(value.as_str());
        let mut valid = chars.len() > 0 && 'A' <= chars[0] && chars[0] <= 'Z';
        let mut i: usize = 0;
        while i < chars.len()
            invariant
                chars@ == value@,
                i <= chars.len(),
                valid == (chars@.len() > 0 && is_upper(chars@[0]) && forall|j: int| 0 <= j < i ==> is_alphanumeric(#[trigger] chars@[j])),
            decreases chars.len() - i,
        {
            let c = chars[i];
            if !(('A' <= c && c <= 'Z') || ('a' <= c && c <= 'z') || ('0' <= c && c <= '9')) {
                valid = false;
            }
            i += 1;
        }
        if valid {
            Ok(DataModelName(value))
        } else {
            Err(DataModelNameError::NotUpperCamelCase { value })
        }
    }
}

/// What a refused entity type prints as.
pub open spec fn data_model_name_message(error: DataModelNameError) -> Seq<char> {
    match error {
        DataModelNameError::NotUpperCamelCase { value } => value@
            + " is not an UpperCamelCase NGSI-LD entity type, such as ChemicalElement"@,
    }
}

impl DataModelNameError {
    /// What the failure prints as.
    pub fn to_string(&self) -> (text: String)
        ensures
            text@ == data_model_name_message(*self),
    {
        match self {
            DataModelNameError::NotUpperCamelCase { value } => {
                let mut text = String::new();
                text.append(value.as_str());
                text.append(" is not an UpperCamelCase NGSI-LD entity type, such as ChemicalElement");
                text
            },
        }
    }
}

} // verus!
