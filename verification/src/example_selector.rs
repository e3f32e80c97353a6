//! What the user typed to pick an example.
use vstd::prelude::*;

verus! {

/// What the user typed to pick an example: its ordinal, its directory name, or a path to it.
///
/// The three forms are resolved against the repository rather than parsed apart here, because an
/// ordinal only means something next to the directories it could match.
#[derive(Debug, PartialEq, Eq)]
pub struct ExampleSelector(String);

impl View for ExampleSelector {
    type V = Seq<char>;

    closed spec fn view(&self) -> Seq<char> {
        self.0@
    }
}

impl Clone for ExampleSelector {
    fn clone(&self) -> (copy: Self)
        ensures
            copy == *self,
    {
        ExampleSelector(self.0.clone())
    }
}

impl ExampleSelector {
    /// The selector as the user wrote it.
    pub fn as_str(&self) -> (text: &str)
        ensures
            text@ == self@,
    {
        self.0.as_str()
    }

    /// The selector as it is printed.
    pub fn to_string(&self) -> (text: String)
        ensures
            text@ == self@,
    {
        self.0.clone()
    }

    /// Takes what the user typed as it stands; any text is a selector.
    pub fn from_str(text: &str) -> (selector: Result<ExampleSelector, core::convert::Infallible>)
        ensures
            selector matches Ok(selector) && selector@ == text@,
    {
        Ok(ExampleSelector(text.to_owned()))
    }
}

} // verus!
