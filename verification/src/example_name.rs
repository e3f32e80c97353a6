//! The directory name an example lives under.
use vstd::prelude::*;
use crate::text::{chars_of, is_digit, is_lower};

verus! {

/// The directory name an example lives under, such as `01-json-field-mapping`.
///
/// The leading ordinal fixes the reading order the README index and the documentation sidebar are
/// built in, so a directory without one is not an example this runner can place.
#[derive(Debug, PartialEq, Eq, PartialOrd, Ord, Hash)]
pub struct ExampleName(String);

/// Why a directory name could not be read as an example name.
#[derive(Debug)]
pub enum ExampleNameError {
    /// The name carries something other than lowercase letters, digits, and single hyphens.
    NotKebabCase {
        /// The name as it appears on disk.
        value: String,
    },
    /// The name does not open with the ordinal that places the example.
    NoOrdinal {
        /// The name as it appears on disk.
        value: String,
    },
}

/// Position `i` holds a small letter, a digit, or a hyphen that is not followed by another.
pub open spec fn kebab_at(text: Seq<char>, i: int) -> bool {
    &&& is_lower(text[i]) || is_digit(text[i]) || text[i] == '-'
    &&& i + 1 < text.len() ==> !(text[i] == '-' && text[i + 1] == '-')
}

/// Hyphen-separated segments, none of them empty, each of small letters and digits.
pub open spec fn is_kebab_case(text: Seq<char>) -> bool {
    &&& text.len() > 0
    &&& text[0] != '-'
    &&& text[text.len() - 1] != '-'
    &&& forall|i: int| 0 <= i < text.len() ==> #[trigger] kebab_at(text, i)
}

/// The text has a second segment, and its first segment is all digits.
pub open spec fn opens_with_ordinal(text: Seq<char>) -> bool {
    exists|k: int|
        0 <= k < text.len() && #[trigger] text[k] == '-' && forall|j: int| 0 <= j < k ==> is_digit(#[trigger] text[j])
}

/// A directory name this runner can place: kebab-case, opening with an ordinal and a name.
pub open spec fn is_example_name(text: Seq<char>) -> bool {
    is_kebab_case(text) && opens_with_ordinal(text)
}

impl View for ExampleName {
    type V = Seq<char>;

    closed spec fn view(&self) -> Seq<char> {
        self.0@
    }
}

impl Clone for ExampleName {
    fn clone(&self) -> (copy: Self)
        ensures
            copy == *self,
    {
        ExampleName(self.0.clone())
    }
}

impl ExampleName {
    /// Every example name is kebab-case and opens with an ordinal.
    pub closed spec fn well_formed(self) -> bool {
        is_example_name(self.0@)
    }

    /// The name as it appears on disk.
    pub fn as_str(&self) -> (text: &str)
        ensures
            text@ == self@,
    {
        self.0.as_str()
    }

    /// The name as it is printed.
    pub fn to_string(&self) -> (text: String)
        ensures
            text@ == self@,
    {
        self.0.clone()
    }

    /// Reads a directory name, refusing one that is not kebab-case or has no leading ordinal.
    pub fn try_from(value: String) -> (name: Result<ExampleName, ExampleNameError>)
        ensures
            match name {
                Ok(name) => is_example_name(value@) && name@ == value@ && name.well_formed(),
                Err(ExampleNameError::NotKebabCase { value: kept }) => !is_kebab_case(value@) && kept == value,
                Err(ExampleNameError::NoOrdinal { value: kept }) => is_kebab_case(value@) && !opens_with_ordinal(value@)
                    && kept == value,
            },
    {
        let chars = chars_of(value.as_str());
        let n = chars.len();
        let mut every = true;
        let mut i: usize = 0;
        while i < n
            invariant
                chars@ == value@,
                n == chars.len(),
                i <= n,
                every == forall|j: int| 0 <= j < i ==> #[trigger] kebab_at(chars@, j),
            decreases n - i,
        {
            let c = chars[i];
            let class = ('a' <= c && c <= 'z') || ('0' <= c && c <= '9') || c == '-';
            let doubled = i + 1 < n && c == '-' && chars[i + 1] == '-';
            assert(kebab_at(chars@, i as int) == (class && !doubled));
            if !class || doubled {
                every = false;
            }
            assert(forall|j: int| 0 <= j < i ==> #[trigger] kebab_at(chars@, j) == kebab_at(chars@, j));
            i += 1;
        }
        let kebab = n > 0 && chars[0] != '-' && chars[n - 1] != '-' && every;
        if !kebab {
            return Err(ExampleNameError::NotKebabCase { value });
        }
        let mut k: usize = 0;
        while k < n && '0' <= chars[k] && chars[k] <= '9'
            invariant
                chars@ == value@,
                n == chars.len(),
                k <= n,
                forall|j: int| 0 <= j < k ==> is_digit(#[trigger] chars@[j]),
            decreases n - k,
        {
            k += 1;
        }
        if k < n && chars[k] == '-' {
            assert(chars@[k as int] == '-');
            Ok(ExampleName(value))
        } else {
            assert forall|w: int|
                0 <= w < value@.len() && #[trigger] value@[w] == '-' implies !(forall|j: int|
                    0 <= j < w ==> is_digit(#[trigger] value@[j])) by {
                if w > k {
                    assert(!is_digit(value@[k as int]));
                } else if w < k {
                    assert(is_digit(value@[w]));
                }
            }
            Err(ExampleNameError::NoOrdinal { value })
        }
    }
}

/// What a refused example directory name prints as.
pub open spec fn example_name_message(error: ExampleNameError) -> Seq<char> {
    match error {
        ExampleNameError::NotKebabCase { value } => value@ + " is not a kebab-case example directory name"@,
        ExampleNameError::NoOrdinal { value } => value@
            + " does not start with an ordinal and a name, such as 01-json-field-mapping"@,
    }
}

impl ExampleNameError {
    /// What the failure prints as.
    pub fn to_string(&self) -> (text: String)
        ensures
            text@ == example_name_message(*self),
    {
        let mut text = String::new();
        match self {
            ExampleNameError::NotKebabCase { value } => {
                text.append(value.as_str());
                text.append(" is not a kebab-case example directory name");
            },
            ExampleNameError::NoOrdinal { value } => {
                text.append(value.as_str());
                text.append(" does not start with an ordinal and a name, such as 01-json-field-mapping");
            },
        }
        text
    }
}

} // verus!
