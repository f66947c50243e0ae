//! The fields of a joke document, and the ways reading one can fail.

use vstd::prelude::*;

verus! {

/// A field that a joke document is read from.
#[derive(Clone, Copy, Debug, PartialEq, Eq, Structural)]
pub enum Field {
    Id,
    Category,
    Type,
    Joke,
    Setup,
    Delivery,
    Flags,
    Safe,
    Nsfw,
    Religious,
    Political,
    Racist,
    Sexist,
    Explicit,
}

impl Field {
    /// The key under which the field stands in a document.
    pub open spec fn key(self) -> Seq<char> {
        match self {
            Field::Id => "id"@,
            Field::Category => "category"@,
            Field::Type => "type"@,
            Field::Joke => "joke"@,
            Field::Setup => "setup"@,
            Field::Delivery => "delivery"@,
            Field::Flags => "flags"@,
            Field::Safe => "safe"@,
            Field::Nsfw => "nsfw"@,
            Field::Religious => "religious"@,
            Field::Political => "political"@,
            Field::Racist => "racist"@,
            Field::Sexist => "sexist"@,
            Field::Explicit => "explicit"@,
        }
    }

    /// What is said of a document that lacks the field.
    pub open spec fn complaint(self) -> Seq<char> {
        match self {
            Field::Id => "Joke should have an id"@,
            Field::Category => "Joke should have a category"@,
            Field::Type => "Joke must have a type"@,
            Field::Joke => "A joke of type 'single' should have a joke field"@,
            Field::Setup => "A joke of type 'twopart' should have a setup field"@,
            Field::Delivery => "A joke of type 'twopart' should have a delivery field"@,
            Field::Flags => "Joke should have a flags object"@,
            Field::Safe => "A joke should contain a safe flag"@,
            Field::Nsfw => "A joke should contain an nsfw flag"@,
            Field::Religious => "A joke should contain a religious flag"@,
            Field::Political => "A joke should contain a political flag"@,
            Field::Racist => "A joke should contain a racist flag"@,
            Field::Sexist => "A joke should contain a sexist flag"@,
            Field::Explicit => "A joke should contain an explicit flag"@,
        }
    }

    /// The key under which the field stands in a document.
    pub fn name(&self) -> (s: &'static str)
        ensures
            s@ == self.key(),
    {
        match self {
            Field::Id => "id",
            Field::Category => "category",
            Field::Type => "type",
            Field::Joke => "joke",
            Field::Setup => "setup",
            Field::Delivery => "delivery",
            Field::Flags => "flags",
            Field::Safe => "safe",
            Field::Nsfw => "nsfw",
            Field::Religious => "religious",
            Field::Political => "political",
            Field::Racist => "racist",
            Field::Sexist => "sexist",
            Field::Explicit => "explicit",
        }
    }

    /// What is said of a document that lacks the field.
    pub fn missing_message(&self) -> (s: &'static str)
        ensures
            s@ == self.complaint(),
    {
        match self {
            Field::Id => "Joke should have an id",
            Field::Category => "Joke should have a category",
            Field::Type => "Joke must have a type",
            Field::Joke => "A joke of type 'single' should have a joke field",
            Field::Setup => "A joke of type 'twopart' should have a setup field",
            Field::Delivery => "A joke of type 'twopart' should have a delivery field",
            Field::Flags => "Joke should have a flags object",
            Field::Safe => "A joke should contain a safe flag",
            Field::Nsfw => "A joke should contain an nsfw flag",
            Field::Religious => "A joke should contain a religious flag",
            Field::Political => "A joke should contain a political flag",
            Field::Racist => "A joke should contain a racist flag",
            Field::Sexist => "A joke should contain a sexist flag",
            Field::Explicit => "A joke should contain an explicit flag",
        }
    }
}

/// Why no joke could be made of a text or a document.
#[derive(Clone, Copy, Debug, PartialEq, Eq, Structural)]
pub enum JokeError {
    /// The text is no JSON document.
    Malformed,
    /// The document has no member under the field's key.
    Missing(Field),
    /// The member under the field's key is not of the kind the field asks
    /// for, or holds a value outside what the field admits.
    Invalid(Field),
}

impl JokeError {
    /// The description of the failure.
    pub open spec fn text(self) -> Seq<char> {
        match self {
            JokeError::Malformed => "JSON was not well-formatted"@,
            JokeError::Missing(field) => field.complaint(),
            JokeError::Invalid(field) => "A joke cannot have this value in the field "@
                + field.key(),
        }
    }

    /// The description of the failure.
    pub fn message(&self) -> (s: String)
        ensures
            s@ == self.text(),
    {
        match self {
            JokeError::Malformed => "JSON was not well-formatted".to_owned(),
            JokeError::Missing(field) => field.missing_message().to_owned(),
            JokeError::Invalid(field) => {
                let mut s = "A joke cannot have this value in the field ".to_owned();
                s.append(field.name());
                s
            },
        }
    }
}

/// A result with what was made taken by its view.
pub open spec fn viewed<T: View>(result: Result<T, JokeError>) -> Result<T::V, JokeError> {
    match result {
        Ok(made) => Ok(made@),
        Err(e) => Err(e),
    }
}

} // verus!
