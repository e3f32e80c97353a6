//! An NGSI-LD entity identifier.
use vstd::prelude::*;
use vstd::string::*;
use crate::text::{has_prefix, starts_with};

verus! {

/// The prefix every NGSI-LD entity identifier carries (ETSI GS CIM 009 v1.9.1, clause 4.5.1).
pub open spec fn urn_prefix() -> Seq<char> {
    seq!['u', 'r', 'n', ':', 'n', 'g', 's', 'i', '-', 'l', 'd', ':']
}

/// An NGSI-LD entity identifier an example expects to find in its output.
#[derive(Debug, PartialEq, Eq, Hash)]
pub struct EntityId(String);

/// Why a string could not be read as an entity identifier.
#[derive(Debug)]
pub enum EntityIdError {
    /// The value does not carry the NGSI-LD URN prefix.
    NotAnEntityUrn {
        /// The value as it was written.
        value: String,
    },
}

impl View for EntityId {
    type V = Seq<char>;

    closed spec fn view(&self) -> Seq<char> {
        self.0@
    }
}

impl Clone for EntityId {
    fn clone(&self) -> (copy: Self)
        ensures
            copy == *self,
    {
        EntityId(self.0.clone())
    }
}

impl EntityId {
    /// Every identifier carries the NGSI-LD URN prefix.
    pub closed spec fn well_formed(self) -> bool {
        has_prefix(self.0@, urn_prefix())
    }

    /// The identifier as it appears in the entity's `id` member.
    pub fn as_str(&self) -> (text: &str)
        ensures
            text@ == self@,
    {
        self.0.as_str()
    }

    /// The identifier as it is printed.
    pub fn to_string(&self) -> (text: String)
        ensures
            text@ == self@,
    {
        self.0.clone()
    }

    /// Reads an identifier, refusing anything outside the NGSI-LD URN namespace.
    pub fn try_from(value: String) -> (id: Result<EntityId, EntityIdError>)
        ensures
            match id {
                Ok(id) => has_prefix(value@, urn_prefix()) && id@ == value@ && id.well_formed(),
                Err(EntityIdError::NotAnEntityUrn { value: kept }) => !has_prefix(value@, urn_prefix()) && kept == value,
            },
    {
        let prefix = "urn:ngsi-ld:";
        proof {
            reveal_strlit("urn:ngsi-ld:");
            assert(prefix@ =~= urn_prefix());
        }
        if starts_with(value.as_str(), prefix) {
            Ok(EntityId(value))
        } else {
            Err(EntityIdError::NotAnEntityUrn { value })
        }
    }
}

/// What a refused entity identifier prints as.
pub open spec fn entity_id_message(error: EntityIdError) -> Seq<char> {
    match error {
        EntityIdError::NotAnEntityUrn { value } => value@
            + " is not an NGSI-LD entity identifier, expected one starting with urn:ngsi-ld:"@,
    }
}

impl EntityIdError {
    /// What the failure prints as.
    pub fn to_string(&self) -> (text: String)
        ensures
            text@ == entity_id_message(*self),
    {
        match self {
            EntityIdError::NotAnEntityUrn { value } => {
                let mut text = String::new();
                text.append(value.as_str());
                text.append(" is not an NGSI-LD entity identifier, expected one starting with urn:ngsi-ld:");
                text
            },
        }
    }
}

} // verus!
