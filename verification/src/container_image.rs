//! A container image reference.
use vstd::prelude::*;
use vstd::string::*;

verus! {

/// The published image, used unless the caller pins another one.
pub open spec fn published_image() -> Seq<char> {
    seq!['g', 'h', 'c', 'r', '.', 'i', 'o', '/', 'v', 'e', 'l', 'a', '-', 't', 'o', 'o', 'l', 's', '/', 'c', 'a', 's', 's',
        'i', 'o', 'p', 'e', 'i', 'a', ':', 'l', 'a', 't', 'e', 's', 't']
}

/// A container image reference, such as `ghcr.io/vela-tools/cassiopeia:latest`.
#[derive(Debug, PartialEq, Eq)]
pub struct ContainerImage(String);

impl View for ContainerImage {
    type V = Seq<char>;

    closed spec fn view(&self) -> Seq<char> {
        self.0@
    }
}

impl Clone for ContainerImage {
    fn clone(&self) -> (copy: Self)
        ensures
            copy == *self,
    {
        ContainerImage(self.0.clone())
    }
}

impl ContainerImage {
    /// The published image.
    pub fn published() -> (image: ContainerImage)
        ensures
            image@ == published_image(),
    {
        let text = "ghcr.io/vela-tools/cassiopeia:latest";
        proof {
            reveal_strlit("ghcr.io/vela-tools/cassiopeia:latest");
            assert(text@ =~= published_image());
        }
        ContainerImage(text.to_owned())
    }

    /// The reference as a container engine receives it.
    pub fn as_str(&self) -> (text: &str)
        ensures
            text@ == self@,
    {
        self.0.as_str()
    }

    /// The reference as it is printed.
    pub fn to_string(&self) -> (text: String)
        ensures
            text@ == self@,
    {
        self.0.clone()
    }

    /// Takes a pinned reference as it is written.
    pub fn from_str(text: &str) -> (image: Result<ContainerImage, core::convert::Infallible>)
        ensures
            image matches Ok(image) && image@ == text@,
    {
        Ok(ContainerImage(text.to_owned()))
    }
}

} // verus!
